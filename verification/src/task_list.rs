//! The task list: an ordered collection of tasks with one selectable index,
//! plus the scroll-state bookkeeping a list widget needs.
use vstd::prelude::*;
use crate::settings::DEFAULT_POMODORO_PER_TASK;

verus! {

/// One task: a title, free-text notes, and an estimated pomodoro count.
#[derive(Debug, Clone)]
pub struct Task {
    pub title: String,
    pub notes: String,
    pub pomodoros: u64,
}

impl Task {
    pub open spec fn spec_title(self) -> Seq<char> {
        self.title@
    }

    pub fn new(title: String, notes: String, pomodoros: u64) -> (task: Task)
        ensures
            task.spec_title() == title@,
            task.notes@ == notes@,
            task.pomodoros == pomodoros,
    {
        Task { title, notes, pomodoros }
    }

    pub fn title(&self) -> (title: &str)
        ensures
            title@ == self.spec_title(),
    {
        self.title.as_str()
    }
}

impl Default for Task {
    /// An untitled task estimated at the default single pomodoro.
    fn default() -> (task: Self)
        ensures
            task.spec_title() == Seq::<char>::empty(),
            task.notes@ == Seq::<char>::empty(),
            task.pomodoros == DEFAULT_POMODORO_PER_TASK,
    {
        Task {
            title: String::new(),
            notes: String::new(),
            pomodoros: DEFAULT_POMODORO_PER_TASK,
        }
    }
}

/// Selection and scroll state of a list widget: the selected index, if any,
/// and the index of the first row on screen.
#[derive(Debug, Clone, Copy, PartialEq, Eq, Structural)]
pub struct ListSelection {
    selected: Option<usize>,
    offset: usize,
}

impl ListSelection {
    pub closed spec fn spec_selected(self) -> Option<usize> {
        self.selected
    }

    pub closed spec fn spec_offset(self) -> usize {
        self.offset
    }

    pub fn selected(&self) -> (selected: Option<usize>)
        ensures
            selected == self.spec_selected(),
    {
        self.selected
    }

    pub fn offset(&self) -> (offset: usize)
        ensures
            offset == self.spec_offset(),
    {
        self.offset
    }

    pub fn select(&mut self, selected: Option<usize>)
        ensures
            final(self).spec_selected() == selected,
            final(self).spec_offset() == old(self).spec_offset(),
    {
        self.selected = selected;
    }

    pub fn with_selected(self, selected: Option<usize>) -> (state: ListSelection)
        ensures
            state.spec_selected() == selected,
            state.spec_offset() == self.spec_offset(),
    {
        ListSelection { selected, ..self }
    }
}

impl Default for ListSelection {
    fn default() -> (state: Self)
        ensures
            state.spec_selected() is None,
            state.spec_offset() == 0,
    {
        ListSelection { selected: None, offset: 0 }
    }
}

/// An ordered list of items with a single selectable entry.
#[derive(Debug)]
pub struct StatefulList<T> {
    pub state: ListSelection,
    pub items: Vec<T>,
}

impl<T> StatefulList<T> {
    /// Whatever is selected is a real index into the items.
    pub open spec fn wf(self) -> bool {
        match self.state.spec_selected() {
            Some(i) => i < self.items.len(),
            None => true,
        }
    }

    /// The selected index may lag one past the end right after a removal;
    /// the next selection move repairs it.
    pub open spec fn wf_loose(self) -> bool {
        match self.state.spec_selected() {
            Some(i) => i <= self.items.len(),
            None => true,
        }
    }

    /// A list over the given items, with the first selected when there is
    /// one.
    pub fn with_items(items: Vec<T>) -> (list: StatefulList<T>)
        ensures
            list.items@ == items@,
            list.state.spec_selected() == (if items.len() > 0 {
                Some(0usize)
            } else {
                None::<usize>
            }),
            list.state.spec_offset() == 0,
            list.wf(),
    {
        if !items.is_empty() {
            StatefulList { state: ListSelection::default().with_selected(Some(0)), items }
        } else {
            StatefulList { state: ListSelection::default(), items }
        }
    }

    /// Move the selection one entry down, wrapping to the top from the last
    /// entry. With no selection, the first entry on screen is selected. On
    /// an empty list the selection is cleared rather than left dangling.
    pub fn next_entry(&mut self)
        requires
            old(self).wf_loose(),
        ensures
            final(self).items@ == old(self).items@,
            final(self).state.spec_offset() == old(self).state.spec_offset(),
            final(self).wf(),
            old(self).items.len() == 0 ==> final(self).state.spec_selected() is None,
            old(self).items.len() > 0 ==> final(self).state.spec_selected() == Some(
                match old(self).state.spec_selected() {
                    Some(i) => if i + 1 >= old(self).items.len() {
                        0usize
                    } else {
                        (i + 1) as usize
                    },
                    None => if old(self).state.spec_offset() < old(self).items.len() {
                        old(self).state.spec_offset()
                    } else {
                        0usize
                    },
                },
            ),
    {
        if self.items.is_empty() {
            self.state.select(None);
            return ;
        }
        let next = match self.state.selected() {
            Some(i) => if i >= self.items.len() - 1 {
                0
            } else {
                i + 1
            },
            None => {
                let offset = self.state.offset();
                if offset < self.items.len() {
                    offset
                } else {
                    0
                }
            },
        };
        self.state.select(Some(next));
    }

    /// Move the selection one entry up, wrapping to the bottom from the
    /// first entry. With no selection, the first entry on screen is
    /// selected. On an empty list the selection is cleared rather than left
    /// dangling.
    pub fn previous_entry(&mut self)
        requires
            old(self).wf_loose(),
        ensures
            final(self).items@ == old(self).items@,
            final(self).state.spec_offset() == old(self).state.spec_offset(),
            final(self).wf(),
            old(self).items.len() == 0 ==> final(self).state.spec_selected() is None,
            old(self).items.len() > 0 ==> final(self).state.spec_selected() == Some(
                match old(self).state.spec_selected() {
                    Some(i) => if i == 0 {
                        (old(self).items.len() - 1) as usize
                    } else {
                        (i - 1) as usize
                    },
                    None => if old(self).state.spec_offset() < old(self).items.len() {
                        old(self).state.spec_offset()
                    } else {
                        0usize
                    },
                },
            ),
    {
        if self.items.is_empty() {
            self.state.select(None);
            return ;
        }
        let prev = match self.state.selected() {
            Some(i) => if i == 0 {
                self.items.len() - 1
            } else {
                i - 1
            },
            None => {
                let offset = self.state.offset();
                if offset < self.items.len() {
                    offset
                } else {
                    0
                }
            },
        };
        self.state.select(Some(prev));
    }

    /// Clear the selection.
    pub fn unselect(&mut self)
        ensures
            final(self).items@ == old(self).items@,
            final(self).state.spec_offset() == old(self).state.spec_offset(),
            final(self).state.spec_selected() is None,
            final(self).wf(),
    {
        self.state.select(None);
    }
}

impl<T> Default for StatefulList<T> {
    fn default() -> (list: Self)
        ensures
            list.items@ == Seq::<T>::empty(),
            list.state.spec_selected() is None,
            list.state.spec_offset() == 0,
            list.wf(),
    {
        StatefulList { state: ListSelection::default(), items: Vec::new() }
    }
}

} // verus!

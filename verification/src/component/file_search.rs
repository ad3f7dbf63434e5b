//! The directory-picking dialog: a text input, a popup of directory
//! entries, and the submit/cancel flow. The dialog only decides; an
//! outside collaborator answers each directory request through
//! [`FileSearchEvent::Request`] and must deliver exactly one response.
//!
//! Paths are carried as plain text: the dialog never reads into them, it
//! only stores, compares, and hands them on.

use vstd::prelude::*;

use crate::util::trim;
use crate::util::trim_of;

verus! {

/// One directory entry, as the collaborator reports it.
#[derive(Debug, PartialEq, Eq)]
pub struct FileInfo {
    pub title: String,
    pub path: String,
    pub is_file: bool,
}

impl Clone for FileInfo {
    fn clone(&self) -> (r: Self)
        ensures
            r == *self,
    {
        Self { title: self.title.clone(), path: self.path.clone(), is_file: self.is_file }
    }
}

/// What the dialog asks of its host.
#[derive(Debug, PartialEq, Eq)]
pub enum FileSearchEvent {
    /// List this directory and answer with `Msg::OpenResponse` once.
    Request(String),
    /// The user submitted this location.
    Submit(String),
}

/// A message the dialog handles.
#[derive(Debug)]
pub enum Msg {
    /// Navigate into a directory.
    OpenPath(String),
    /// The answer to an earlier request: a corrected location, if the
    /// collaborator rewrote it, and the directory's entries.
    OpenResponse(Option<String>, Vec<FileInfo>),
    /// The text input changed.
    OnChange(String),
    TogglePopup,
    Submit,
}

/// What one step asks the host to do.
#[derive(Debug)]
pub struct FileSearchOutcome {
    pub render: bool,
    pub event: Option<FileSearchEvent>,
}

/// The dialog state.
#[derive(Debug)]
pub struct FileSearchComponent {
    /// The location the dialog was mounted with; detects prop changes.
    pub cached_init_location: String,
    /// The directory currently browsed in the popup.
    pub current_location: String,
    /// The location last typed or submitted, if any.
    pub set_location: Option<String>,
    /// The entries of the current directory.
    pub files: Vec<FileInfo>,
    pub show_popup: bool,
    /// Whether the first directory answer already arrived; the first
    /// corrected location becomes the set location.
    pub initial_call: bool,
}

impl FileSearchComponent {
    /// A fresh dialog browsing `init_location`. The host must follow up
    /// with `update(Msg::OpenPath(init_location))` to issue the first
    /// directory request, as with any navigation.
    pub fn create(init_location: String) -> (r: Self)
        ensures
            r.cached_init_location == init_location,
            r.current_location == init_location,
            r.set_location is None,
            r.files@ =~= Seq::<FileInfo>::empty(),
            r.show_popup == false,
            r.initial_call == false,
    {
        Self {
            cached_init_location: init_location.clone(),
            current_location: init_location,
            set_location: None,
            files: Vec::new(),
            show_popup: false,
            initial_call: false,
        }
    }

    /// The location the text input displays: the set location, falling
    /// back to the mount location.
    pub fn displayed_location(&self) -> (r: &String)
        ensures
            match self.set_location {
                Some(l) => r == l,
                None => r == self.cached_init_location,
            },
    {
        match &self.set_location {
            Some(l) => l,
            None => &self.cached_init_location,
        }
    }

    /// One step of the dialog.
    pub fn update(&mut self, msg: Msg) -> (out: FileSearchOutcome)
        ensures
            match msg {
                Msg::OnChange(value) => {
                    &&& (trim_of(value@).len() > 0 ==> (final(self).set_location matches Some(l)
                        && l@ == trim_of(value@)))
                    &&& (trim_of(value@).len() == 0 ==> final(self).set_location == old(
                        self,
                    ).set_location)
                    &&& final(self).cached_init_location == old(self).cached_init_location
                    &&& final(self).current_location == old(self).current_location
                    &&& final(self).files == old(self).files
                    &&& final(self).show_popup == old(self).show_popup
                    &&& final(self).initial_call == old(self).initial_call
                    &&& out.render
                    &&& out.event is None
                },
                Msg::OpenPath(path) => {
                    &&& final(self).current_location == path
                    &&& final(self).cached_init_location == old(self).cached_init_location
                    &&& final(self).set_location == old(self).set_location
                    &&& final(self).files == old(self).files
                    &&& final(self).show_popup == old(self).show_popup
                    &&& final(self).initial_call == old(self).initial_call
                    &&& !out.render
                    &&& out.event == Some(FileSearchEvent::Request(path))
                },
                Msg::OpenResponse(fixed, resp) => {
                    &&& final(self).files == resp
                    &&& match fixed {
                        Some(location) => {
                            if old(self).initial_call {
                                &&& final(self).current_location == location
                                &&& final(self).set_location == old(self).set_location
                                &&& final(self).initial_call == old(self).initial_call
                            } else {
                                &&& final(self).set_location == Some(location)
                                &&& final(self).current_location == old(self).current_location
                                &&& final(self).initial_call == true
                            }
                        },
                        None => {
                            &&& final(self).current_location == old(self).current_location
                            &&& final(self).set_location == old(self).set_location
                            &&& final(self).initial_call == old(self).initial_call
                        },
                    }
                    &&& final(self).cached_init_location == old(self).cached_init_location
                    &&& final(self).show_popup == old(self).show_popup
                    &&& out.render
                    &&& out.event is None
                },
                Msg::TogglePopup => {
                    let target = match old(self).set_location {
                        Some(l) => l,
                        None => old(self).cached_init_location,
                    };
                    &&& final(self).show_popup == !old(self).show_popup
                    &&& (!old(self).show_popup ==> {
                        // Opening resets browsing to the last saved
                        // location, re-listing it when it differs.
                        &&& final(self).current_location == target
                        &&& (target@ != old(self).current_location@ ==> (final(self).files@
                            =~= Seq::<FileInfo>::empty() && out.event == Some(
                            FileSearchEvent::Request(target),
                        )))
                        &&& (target@ == old(self).current_location@ ==> (final(self).files == old(
                            self,
                        ).files && out.event is None))
                    })
                    &&& (old(self).show_popup ==> {
                        &&& final(self).current_location == old(self).current_location
                        &&& final(self).files == old(self).files
                        &&& out.event is None
                    })
                    &&& final(self).cached_init_location == old(self).cached_init_location
                    &&& final(self).set_location == old(self).set_location
                    &&& final(self).initial_call == old(self).initial_call
                    &&& out.render
                },
                Msg::Submit => {
                    &&& final(self).show_popup == !old(self).show_popup
                    &&& (final(self).set_location matches Some(l) && l == old(
                        self,
                    ).current_location)
                    &&& final(self).current_location == old(self).current_location
                    &&& final(self).cached_init_location == old(self).cached_init_location
                    &&& final(self).files == old(self).files
                    &&& final(self).initial_call == old(self).initial_call
                    &&& out.render
                    &&& out.event == Some(FileSearchEvent::Submit(old(self).current_location))
                },
            },
    {
        match msg {
            Msg::OnChange(value) => {
                let trimmed = trim(value.as_str());
                if !trimmed.as_str().is_empty() {
                    self.set_location = Some(trimmed);
                }
                FileSearchOutcome { render: true, event: None }
            },

            Msg::OpenPath(path) => {
                self.current_location = path.clone();
                FileSearchOutcome {
                    render: false,
                    event: Some(FileSearchEvent::Request(path)),
                }
            },

            Msg::OpenResponse(fixed_set_location, resp) => {
                self.files = resp;
                if let Some(location) = fixed_set_location {
                    if self.initial_call {
                        self.current_location = location;
                    } else {
                        self.set_location = Some(location);
                        self.initial_call = true;
                    }
                }
                FileSearchOutcome { render: true, event: None }
            },

            Msg::TogglePopup => {
                self.show_popup = !self.show_popup;
                let mut event: Option<FileSearchEvent> = None;
                if self.show_popup {
                    // Reset browsing to the last saved location.
                    let new_location = match &self.set_location {
                        Some(l) => l.clone(),
                        None => self.cached_init_location.clone(),
                    };
                    if !new_location.eq(&self.current_location) {
                        self.files = Vec::new();
                        event = Some(FileSearchEvent::Request(new_location.clone()));
                    }
                    self.current_location = new_location;
                }
                FileSearchOutcome { render: true, event }
            },

            Msg::Submit => {
                self.show_popup = !self.show_popup;
                self.set_location = Some(self.current_location.clone());
                FileSearchOutcome {
                    render: true,
                    event: Some(FileSearchEvent::Submit(self.current_location.clone())),
                }
            },
        }
    }

    /// New props arrived: a changed mount location resets the dialog to
    /// it, and the host must re-list it with `Msg::OpenPath`.
    pub fn changed(&mut self, init_location: &String) -> (out: FileSearchOutcome)
        ensures
            (old(self).cached_init_location@ != init_location@ ==> {
                &&& final(self).cached_init_location == init_location
                &&& final(self).current_location == init_location
                &&& final(self).set_location is None
                &&& out.render
                &&& out.event == Some(FileSearchEvent::Request(*init_location))
            }),
            (old(self).cached_init_location@ == init_location@ ==> {
                &&& *final(self) == *old(self)
                &&& !out.render
                &&& out.event is None
            }),
            final(self).files == old(self).files,
            final(self).show_popup == old(self).show_popup,
            final(self).initial_call == old(self).initial_call,
    {
        if !self.cached_init_location.eq(init_location) {
            self.set_location = None;
            self.cached_init_location = init_location.clone();
            self.current_location = init_location.clone();
            FileSearchOutcome {
                render: true,
                event: Some(FileSearchEvent::Request(init_location.clone())),
            }
        } else {
            FileSearchOutcome { render: false, event: None }
        }
    }
}

} // verus!

//! The core's model of the host windowing runtime: the windows it has
//! registered, their visibility, and the exit status once the process has
//! been told to terminate. The native runtime itself is an external
//! collaborator; an adapter mirrors every change made here onto it.

use vstd::prelude::*;

verus! {

/// One native window as the core sees it: its registered name and whether it
/// is currently visible.
#[derive(Debug, PartialEq, Eq)]
pub struct WindowState {
    pub name: String,
    pub visible: bool,
}

/// The mathematical shape of a `WindowState`.
#[verifier::ext_equal]
pub struct WindowStateModel {
    pub name: Seq<char>,
    pub visible: bool,
}

impl View for WindowState {
    type V = WindowStateModel;

    open spec fn view(&self) -> WindowStateModel {
        WindowStateModel { name: self.name@, visible: self.visible }
    }
}

/// Why a host request could not be honoured.
#[derive(Clone, Copy, Debug, PartialEq, Eq, Structural)]
pub enum HostError {
    /// No window is registered under the requested name.
    WindowNotFound,
}

/// The host as the core sees it.
#[derive(Debug, PartialEq, Eq)]
pub struct HostModel {
    pub windows: Vec<WindowState>,
    pub exit_status: Option<i32>,
}

/// `windows` with every window named `name` made invisible, everything else
/// exactly as it was.
pub open spec fn hide_in(windows: Seq<WindowStateModel>, name: Seq<char>) -> Seq<WindowStateModel> {
    windows.map_values(
        |w: WindowStateModel|
            if w.name == name {
                WindowStateModel { name: w.name, visible: false }
            } else {
                w
            },
    )
}

impl HostModel {
    /// The windows, as their mathematical shapes, in registration order.
    pub open spec fn windows_model(&self) -> Seq<WindowStateModel> {
        self.windows@.map_values(|w: WindowState| w@)
    }

    /// The process has not been told to exit.
    pub open spec fn running(&self) -> bool {
        self.exit_status is None
    }

    /// A window is registered under `name`.
    pub open spec fn has_window(&self, name: Seq<char>) -> bool {
        exists|i: int|
            0 <= i < self.windows_model().len() && self.windows_model()[i].name == name
    }

    /// Window names are unique: a lookup by name denotes at most one window.
    pub open spec fn wf(&self) -> bool {
        forall|i: int, j: int|
            0 <= i < j < self.windows_model().len() ==> self.windows_model()[i].name
                != self.windows_model()[j].name
    }

    /// A freshly started host with the given windows and no exit requested.
    pub fn new(windows: Vec<WindowState>) -> (h: HostModel)
        ensures
            h.windows == windows,
            h.exit_status is None,
    {
        HostModel { windows, exit_status: None }
    }

    /// Request that the window named `name` be hidden. Succeeds if and only
    /// if such a window is registered; a missing window is reported, never
    /// escalated, and then nothing changes.
    pub fn hide_window(&mut self, name: &String) -> (r: Result<(), HostError>)
        ensures
            final(self).exit_status == old(self).exit_status,
            final(self).windows_model() == hide_in(old(self).windows_model(), name@),
            r is Ok <==> old(self).has_window(name@),
            r is Err ==> r == Err::<(), HostError>(HostError::WindowNotFound),
    {
        let ghost before = self.windows_model();
        let mut updated: Vec<WindowState> = Vec::new();
        let mut found = false;
        let n = self.windows.len();
        let mut i: usize = 0;
        while i < n
            invariant
                n == self.windows@.len(),
                before == self.windows_model(),
                0 <= i <= n,
                updated@.len() == i,
                forall|k: int|
                    0 <= k < i ==> updated@.map_values(|w: WindowState| w@)[k] == hide_in(
                        before,
                        name@,
                    )[k],
                found <==> exists|k: int| 0 <= k < i && before[k].name == name@,
            decreases n - i,
        {
            let w = &self.windows[i];
            proof {
                assert(before[i as int] == self.windows@[i as int]@);
            }
            if w.name == *name {
                updated.push(WindowState { name: w.name.clone(), visible: false });
                found = true;
                proof {
                    assert(before[i as int].name == name@);
                }
            } else {
                updated.push(WindowState { name: w.name.clone(), visible: w.visible });
                proof {
                    assert(before[i as int].name != name@);
                    assert(forall|k: int|
                        0 <= k < i + 1 && before[k].name == name@ ==> k < i);
                }
            }
            i += 1;
        }
        self.windows = updated;
        proof {
            assert(self.windows_model() =~= hide_in(before, name@));
        }
        if found {
            Ok(())
        } else {
            Err(HostError::WindowNotFound)
        }
    }
}

/// Hiding never renames, adds or removes a window: it can only change
/// visibility.
pub proof fn lemma_hide_in_names(windows: Seq<WindowStateModel>, name: Seq<char>)
    ensures
        hide_in(windows, name).len() == windows.len(),
        forall|k: int| 0 <= k < windows.len() ==> hide_in(windows, name)[k].name
            == windows[k].name,
{
}

/// When window names are unique and a window named `name` exists, hiding by
/// `name` performs exactly one hide: that window becomes invisible and every
/// other window is left untouched.
pub proof fn lemma_hide_in_exactly_one(windows: Seq<WindowStateModel>, name: Seq<char>)
    requires
        forall|i: int, j: int| 0 <= i < j < windows.len() ==> windows[i].name != windows[j].name,
        exists|i: int| 0 <= i < windows.len() && windows[i].name == name,
    ensures
        exists|k: int|
            #![auto]
            0 <= k < windows.len() && windows[k].name == name && hide_in(windows, name)[k]
                == (WindowStateModel { name, visible: false }) && forall|j: int|
                0 <= j < windows.len() && j != k ==> hide_in(windows, name)[j] == windows[j],
{
    let k = choose|i: int| 0 <= i < windows.len() && windows[i].name == name;
    assert(hide_in(windows, name)[k] == (WindowStateModel { name, visible: false }));
    assert(forall|j: int| 0 <= j < windows.len() && j != k ==> windows[j].name != name);
}

/// When no window is named `name`, hiding by `name` changes nothing.
pub proof fn lemma_hide_in_absent(windows: Seq<WindowStateModel>, name: Seq<char>)
    requires
        forall|i: int| 0 <= i < windows.len() ==> windows[i].name != name,
    ensures
        hide_in(windows, name) == windows,
{
    assert(hide_in(windows, name) =~= windows);
}

} // verus!

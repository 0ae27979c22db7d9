//! The host and editor bridge: the boundary contracts a hosting environment
//! implements, the snapshot interface of a parameter model, the single-slot
//! change listener that wakes an editor when parameters change from outside
//! it, and the controller decision that keeps an editor's snapshot and the
//! model in step.

use vstd::prelude::*;

use crate::params::{LadderParametersSnap, LadderShared};

verus! {

/// The callbacks a hosting environment offers the plugin: both are
/// fire-and-forget requests whose effect lives entirely on the host's side.
pub trait CarnyxHost: Sync + Send {
    /// Tells the host to refresh its display of the parameter values.
    fn update_host_display(&self);

    /// Asks the host to resize the plugin's embedded editor window.
    fn resize_editor_window(&self, width: usize, height: usize);
}

/// A parameter model that an editor can bind to: it yields an immutable
/// snapshot of its user-facing values and accepts an edited snapshot back.
pub trait CarnyxModel: Sized + Sync + Send + 'static {
    /// The value object an editor binds to.
    type Snap;

    /// The snapshot this model yields.
    spec fn snap_spec(&self) -> Self::Snap;

    /// The model after a snapshot has been written back into it.
    spec fn restored(&self, snap: &Self::Snap) -> Self;

    /// Copies the user-facing values out.
    fn snap(&self) -> (s: Self::Snap)
        ensures
            s == self.snap_spec(),
    ;

    /// Writes an edited snapshot back.
    fn set_snap(&mut self, snap: &Self::Snap)
        ensures
            *final(self) == old(self).restored(snap),
    ;
}

/// Something that wants to hear that a model changed: typically the editor,
/// woken from the thread that applied host automation.
pub trait CarnyxModelListener<Model>: Send {
    /// Called after the model changed from outside the listener's own thread.
    fn notify_change(&self, model: &Model);
}

/// A single replaceable listener slot: the model does not own its editor, it
/// only holds at most one handle to notify, set while an editor is open. An
/// empty slot swallows notifications silently.
pub struct SettableListener<L> {
    /// The currently attached listener, if any.
    pub listener: Option<L>,
}

impl<L> SettableListener<L> {
    /// A fresh slot holds no listener: notifications are dropped until one
    /// is attached.
    pub fn new() -> (r: SettableListener<L>)
        ensures
            r.listener is None,
    {
        SettableListener { listener: None }
    }

    /// Attaches a listener, replacing whatever was in the slot.
    pub fn set_listener(&mut self, listener: L)
        ensures
            final(self).listener == Some(listener),
    {
        self.listener = Some(listener);
    }

    /// Detaches the current listener, leaving the slot empty.
    pub fn clear_listener(&mut self)
        ensures
            final(self).listener is None,
    {
        self.listener = None;
    }
}

/// A slot is itself a listener: it forwards a change to whatever it holds,
/// and with an empty slot the notification is dropped silently, never failing.
impl<Model, L: CarnyxModelListener<Model> + Send> CarnyxModelListener<Model> for SettableListener<
    L,
> {
    fn notify_change(&self, model: &Model) {
        match &self.listener {
            Some(l) => l.notify_change(model),
            None => (),
        }
    }
}

/// The editor-side controller: it decides, for each editor event, whether to
/// refresh the editor's snapshot from the model (the model changed behind the
/// editor's back) or to push an edited snapshot into the model and tell the
/// host to refresh its display.
pub struct EditorController<H> {
    /// The host whose display is refreshed after a pushed edit.
    pub host: H,
}

impl<H: CarnyxHost> EditorController<H> {
    /// A controller refreshing the given host.
    pub fn new(host: H) -> (r: EditorController<H>)
        ensures
            r.host == host,
    {
        EditorController { host }
    }

    /// Handles one editor event. When the change notification fired
    /// (`model_changed`), the editor's snapshot is refreshed from the model
    /// and nothing is pushed. Otherwise, if the event edited the snapshot
    /// (it differs from `old_snap`, its value before the event), the edited
    /// snapshot is written back into the model and the host display is
    /// refreshed. Returns whether a push happened.
    pub fn handle_event(
        &self,
        params: &mut LadderShared,
        snap: &mut LadderParametersSnap,
        old_snap: &LadderParametersSnap,
        model_changed: bool,
    ) -> (pushed: bool)
        ensures
            model_changed ==> *final(params) == *old(params),
            model_changed ==> *final(snap) == old(params).snap_spec(),
            model_changed ==> !pushed,
            (!model_changed && *old(snap) == *old_snap) ==> *final(params) == *old(params),
            (!model_changed && *old(snap) == *old_snap) ==> *final(snap) == *old(snap),
            (!model_changed && *old(snap) == *old_snap) ==> !pushed,
            (!model_changed && *old(snap) != *old_snap) ==> *final(params) == old(params).restored(old(snap)),
            (!model_changed && *old(snap) != *old_snap) ==> *final(snap) == *old(snap),
            (!model_changed && *old(snap) != *old_snap) ==> pushed,
    {
        if model_changed {
            *snap = params.snap();
            false
        } else if *snap != *old_snap {
            params.set_snap(snap);
            self.host.update_host_display();
            true
        } else {
            false
        }
    }
}

} // verus!

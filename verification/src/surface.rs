//! What the library and the host tell each other about surfaces.
//!
//! A surface is the embedded browser view that shows one tab. The host owns
//! the surfaces. Before an operation it reports what it sees as a
//! [`WindowSnapshot`]; the operation answers with [`SurfaceCommand`]s; the
//! host carries them out and reports how each one went as a
//! [`SurfaceOutcome`].

use crate::error::TabError;
use crate::geometry::{PhysicalSize, Placement, ScaleFactor};
use crate::ident::TabId;
use vstd::prelude::*;

verus! {

/// One thing the host is asked to do with a surface.
#[derive(Debug, Clone, PartialEq, Eq)]
pub enum SurfaceAction {
    /// Make the surface, showing `url`, at `placement`, hidden.
    Create { url: String, placement: Placement },
    /// Make the surface visible.
    Show,
    /// Give the surface the input focus.
    Focus,
    /// Make the surface invisible.
    Hide,
    /// Destroy the surface.
    Close,
    /// Move and resize the surface to `placement`.
    Place { placement: Placement },
    /// Load the current page again.
    Reload,
    /// Go one step back in the surface's history.
    HistoryBack,
    /// Go one step forward in the surface's history.
    HistoryForward,
    /// Load `url`.
    Navigate { url: String },
}

/// The mathematical content of a [`SurfaceAction`].
pub enum SurfaceActionView {
    Create { url: Seq<char>, placement: Placement },
    Show,
    Focus,
    Hide,
    Close,
    Place { placement: Placement },
    Reload,
    HistoryBack,
    HistoryForward,
    Navigate { url: Seq<char> },
}

impl View for SurfaceAction {
    type V = SurfaceActionView;

    open spec fn view(&self) -> SurfaceActionView {
        match self {
            SurfaceAction::Create { url, placement } => SurfaceActionView::Create {
                url: url@,
                placement: *placement,
            },
            SurfaceAction::Show => SurfaceActionView::Show,
            SurfaceAction::Focus => SurfaceActionView::Focus,
            SurfaceAction::Hide => SurfaceActionView::Hide,
            SurfaceAction::Close => SurfaceActionView::Close,
            SurfaceAction::Place { placement } => SurfaceActionView::Place { placement: *placement },
            SurfaceAction::Reload => SurfaceActionView::Reload,
            SurfaceAction::HistoryBack => SurfaceActionView::HistoryBack,
            SurfaceAction::HistoryForward => SurfaceActionView::HistoryForward,
            SurfaceAction::Navigate { url } => SurfaceActionView::Navigate { url: url@ },
        }
    }
}

impl SurfaceActionView {
    /// Whether the action is a best-effort step: one that the operation
    /// does not wait on, so that the host's failing at it is logged and
    /// nothing more.
    ///
    /// Hiding and closing are such steps, because a surface that is gone is
    /// as good as hidden or closed. So are making and placing a surface: the
    /// tab record stands whether or not the host could follow. Showing,
    /// focusing, reloading, moving through the history and navigating have to
    /// succeed for the operation to succeed.
    pub open spec fn best_effort(self) -> bool {
        self is Create || self is Hide || self is Close || self is Place
    }
}

/// An action together with the surface it is meant for.
#[derive(Debug, Clone, PartialEq, Eq)]
pub struct SurfaceCommand {
    /// The tab whose surface the host acts on.
    pub target: TabId,
    pub action: SurfaceAction,
}

/// The mathematical content of a [`SurfaceCommand`].
pub struct SurfaceCommandView {
    pub target: TabId,
    pub action: SurfaceActionView,
}

impl View for SurfaceCommand {
    type V = SurfaceCommandView;

    open spec fn view(&self) -> SurfaceCommandView {
        SurfaceCommandView { target: self.target, action: self.action@ }
    }
}

/// The mathematical content of a list of commands.
pub open spec fn commands_view(commands: Seq<SurfaceCommand>) -> Seq<SurfaceCommandView> {
    commands.map_values(|c: SurfaceCommand| c@)
}

/// The mathematical content of what opening a tab returns.
pub open spec fn created_view(result: Result<(TabId, SurfaceCommand), TabError>) -> Result<
    (TabId, SurfaceCommandView),
    TabError,
> {
    match result {
        Ok((id, make)) => Ok((id, make@)),
        Err(e) => Err(e),
    }
}

/// The mathematical content of what a switch returns.
pub open spec fn switched_view(result: Result<(TabId, Vec<SurfaceCommand>), TabError>) -> Result<
    (TabId, Seq<SurfaceCommandView>),
    TabError,
> {
    match result {
        Ok((id, commands)) => Ok((id, commands_view(commands@))),
        Err(e) => Err(e),
    }
}

/// The mathematical content of a command or the failure to come by one.
pub open spec fn command_result_view(result: Result<SurfaceCommand, TabError>) -> Result<
    SurfaceCommandView,
    TabError,
> {
    match result {
        Ok(c) => Ok(c@),
        Err(e) => Err(e),
    }
}

/// How the host fared with one command.
#[derive(Clone, Copy, Debug, PartialEq, Eq, Structural)]
pub enum SurfaceOutcome {
    /// The host did what was asked.
    Succeeded,
    /// The surface the command is meant for does not exist.
    TargetAbsent,
    /// The surface exists, but the operation failed.
    Failed,
}

/// What a command's outcome means for the operation that issued it.
///
/// A best-effort step never fails the operation: its outcome is handed on
/// so that a failure can be logged. Any other step fails the operation unless
/// it succeeded: with `WebviewNotFound` where the surface is missing, with
/// `SurfaceOperationFailed` where the host failed.
pub open spec fn settled(action: SurfaceActionView, outcome: SurfaceOutcome) -> Result<
    SurfaceOutcome,
    TabError,
> {
    if action.best_effort() {
        Ok(outcome)
    } else {
        match outcome {
            SurfaceOutcome::Succeeded => Ok(SurfaceOutcome::Succeeded),
            SurfaceOutcome::TargetAbsent => Err(TabError::WebviewNotFound),
            SurfaceOutcome::Failed => Err(TabError::SurfaceOperationFailed),
        }
    }
}

impl SurfaceAction {
    /// Whether the action is a best-effort step.
    pub fn is_best_effort(&self) -> (best_effort: bool)
        ensures
            best_effort == self@.best_effort(),
    {
        match self {
            SurfaceAction::Create { .. } => true,
            SurfaceAction::Hide => true,
            SurfaceAction::Close => true,
            SurfaceAction::Place { .. } => true,
            _ => false,
        }
    }
}

impl SurfaceCommand {
    /// Decides what the host's report on this command means for the
    /// operation that issued it.
    pub fn settle(&self, outcome: SurfaceOutcome) -> (result: Result<SurfaceOutcome, TabError>)
        ensures
            result == settled(self@.action, outcome),
    {
        if self.action.is_best_effort() {
            Ok(outcome)
        } else {
            match outcome {
                SurfaceOutcome::Succeeded => Ok(SurfaceOutcome::Succeeded),
                SurfaceOutcome::TargetAbsent => Err(TabError::WebviewNotFound),
                SurfaceOutcome::Failed => Err(TabError::SurfaceOperationFailed),
            }
        }
    }
}

/// A surface as the host sees it.
#[derive(Debug, Clone, PartialEq, Eq)]
pub struct Surface {
    /// The tab the surface is bound to.
    pub id: TabId,
    /// The address the surface currently shows; `None` where the host could
    /// not read it.
    pub url: Option<String>,
}

/// The mathematical content of a [`Surface`].
pub struct SurfaceView {
    pub id: TabId,
    pub url: Option<Seq<char>>,
}

impl View for Surface {
    type V = SurfaceView;

    open spec fn view(&self) -> SurfaceView {
        SurfaceView {
            id: self.id,
            url: match self.url {
                Some(address) => Some(address@),
                None => None,
            },
        }
    }
}

/// A window as the host sees it at the start of an operation.
#[derive(Debug, Clone)]
pub struct WindowSnapshot {
    /// The size of the window's content area in physical pixels.
    pub size: PhysicalSize,
    /// The scale factor of the display the window is on.
    pub scale: ScaleFactor,
    /// The surfaces the window holds.
    pub surfaces: Vec<Surface>,
}

/// The mathematical content of a [`WindowSnapshot`].
pub struct WindowSnapshotView {
    pub size: PhysicalSize,
    pub scale_milli: int,
    pub surfaces: Seq<SurfaceView>,
}

impl View for WindowSnapshot {
    type V = WindowSnapshotView;

    open spec fn view(&self) -> WindowSnapshotView {
        WindowSnapshotView {
            size: self.size,
            scale_milli: self.scale@,
            surfaces: self.surfaces@.map_values(|s: Surface| s@),
        }
    }
}

/// The mathematical content of a window that may be missing.
pub open spec fn window_view(window: Option<&WindowSnapshot>) -> Option<WindowSnapshotView> {
    match window {
        Some(w) => Some(w@),
        None => None,
    }
}

/// Whether one of the first `upto` surfaces is bound to `id`.
pub open spec fn bound_before(surfaces: Seq<SurfaceView>, upto: int, id: TabId) -> bool {
    exists|i: int| 0 <= i < upto && #[trigger] surfaces[i].id == id
}

/// The surface bound to `id`: the first such surface in the list, or `None`
/// where no surface is bound to `id`.
pub open spec fn bound_surface(surfaces: Seq<SurfaceView>, id: TabId) -> Option<SurfaceView>
    decreases surfaces.len(),
{
    if surfaces.len() == 0 {
        None
    } else if surfaces[0].id == id {
        Some(surfaces[0])
    } else {
        bound_surface(surfaces.skip(1), id)
    }
}

impl WindowSnapshotView {
    /// Whether the window holds a surface bound to `id`.
    pub open spec fn has_surface(self, id: TabId) -> bool {
        bound_surface(self.surfaces, id) is Some
    }
}

/// The surface found by `bound_surface` is the first one bound to `id`, and
/// there is one exactly where some surface is bound to `id`.
pub proof fn lemma_bound_surface(surfaces: Seq<SurfaceView>, id: TabId)
    ensures
        bound_surface(surfaces, id) is Some <==> bound_before(surfaces, surfaces.len() as int, id),
        bound_surface(surfaces, id) matches Some(found) ==> exists|i: int|
            0 <= i < surfaces.len() && #[trigger] surfaces[i].id == id && surfaces[i] == found
                && !bound_before(surfaces, i, id),
    decreases surfaces.len(),
{
    if surfaces.len() == 0 {
    } else if surfaces[0].id == id {
        assert(!bound_before(surfaces, 0, id));
    } else {
        let rest = surfaces.skip(1);
        lemma_bound_surface(rest, id);
        if bound_before(rest, rest.len() as int, id) {
            let w = choose|w: int| 0 <= w < rest.len() && #[trigger] rest[w].id == id;
            assert(surfaces[w + 1].id == id);
        }
        if bound_before(surfaces, surfaces.len() as int, id) {
            let w = choose|w: int| 0 <= w < surfaces.len() && #[trigger] surfaces[w].id == id;
            assert(rest[w - 1].id == id);
        }
        if let Some(found) = bound_surface(surfaces, id) {
            let i = choose|i: int|
                0 <= i < rest.len() && #[trigger] rest[i].id == id && rest[i] == found
                    && !bound_before(rest, i, id);
            assert(surfaces[i + 1].id == id && surfaces[i + 1] == found);
            if bound_before(surfaces, i + 1, id) {
                let w = choose|w: int| 0 <= w < i + 1 && #[trigger] surfaces[w].id == id;
                assert(rest[w - 1].id == id);
            }
        }
    }
}

impl WindowSnapshot {
    /// Looks up the surface bound to `id` and returns where it stands in the
    /// list of surfaces: the place of the first surface bound to `id`, or
    /// `None` where there is none.
    pub fn find_surface(&self, id: TabId) -> (found: Option<usize>)
        ensures
            found is Some <==> self@.has_surface(id),
            found matches Some(i) ==> i < self.surfaces@.len() && self.surfaces@[i as int].id == id
                && !bound_before(self@.surfaces, i as int, id) && bound_surface(self@.surfaces, id)
                == Some(self.surfaces@[i as int]@),
    {
        let ghost all = self@.surfaces;
        let mut i: usize = 0;
        assert(all.skip(0) =~= all);
        while i < self.surfaces.len()
            invariant
                i <= self.surfaces@.len(),
                all == self@.surfaces,
                all.len() == self.surfaces@.len(),
                bound_surface(all, id) == bound_surface(all.skip(i as int), id),
                !bound_before(all, i as int, id),
            decreases self.surfaces@.len() - i,
        {
            let ghost rest = all.skip(i as int);
            assert(rest[0] == self.surfaces@[i as int]@);
            if self.surfaces[i].id == id {
                return Some(i);
            }
            assert(rest.skip(1) =~= all.skip(i + 1));
            i += 1;
        }
        None
    }

    /// Whether the window holds a surface bound to `id`.
    pub fn has_surface(&self, id: TabId) -> (present: bool)
        ensures
            present == self@.has_surface(id),
    {
        self.find_surface(id).is_some()
    }
}

} // verus!

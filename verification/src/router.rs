//! Where a capture goes: from a host event, the foreground window and the
//! capture's path to the file operation that files it.

use vstd::prelude::*;
use vstd::string::StringExecFns;
use crate::error::ClipError;
use crate::paths::{
    file_name_of,
    join,
    screenshot_name,
    spec_file_name,
    spec_has_file_name,
    spec_join,
    spec_screenshot_name,
    SCREENSHOT_PREFIX_LEN,
};
use crate::window::{get_window_name, spec_window_name, ProcessEntry, WindowSnapshot};

verus! {

/// The kinds of capture that the host announces.
#[derive(Clone, Copy, Debug, PartialEq, Eq, Structural)]
pub enum CaptureEvent {
    /// The replay buffer was saved to a file.
    ReplaySaved,
    /// A screenshot was written to a file.
    ScreenshotTaken,
}

/// The numbers under which the host announces the two kinds of capture.
#[derive(Clone, Copy, Debug, PartialEq, Eq, Structural)]
pub struct EventTags {
    pub replay_saved: i32,
    pub screenshot_taken: i32,
}

/// The capture that a host event with number `tag` announces, or `None` for
/// an event that is none of this library's business.
pub fn classify_event(tag: i32, tags: &EventTags) -> (event: Option<CaptureEvent>)
    ensures
        event == (if tag == tags.replay_saved {
            Some(CaptureEvent::ReplaySaved)
        } else if tag == tags.screenshot_taken {
            Some(CaptureEvent::ScreenshotTaken)
        } else {
            None
        }),
{
    if tag == tags.replay_saved {
        Some(CaptureEvent::ReplaySaved)
    } else if tag == tags.screenshot_taken {
        Some(CaptureEvent::ScreenshotTaken)
    } else {
        None
    }
}

/// Settings fixed when the module is loaded.
#[derive(Debug)]
pub struct Config {
    /// The directory under which every capture is filed.
    pub target_path: String,
}

/// The file operation that files one capture.
#[derive(Debug)]
pub enum RouteAction {
    /// The capture stays where it is.
    Nothing,
    /// Create `folder` with its parents, then rename `from` to `to`.
    MoveFile { folder: String, from: String, to: String },
    /// Create `folder` with its parents, store the image at `from` as a
    /// three-channel JPEG at `to`, then delete `from`.
    StoreJpeg { folder: String, from: String, to: String },
}

/// A `RouteAction` with its paths as character sequences.
pub enum RoutePlan {
    Nothing,
    MoveFile { folder: Seq<char>, from: Seq<char>, to: Seq<char> },
    StoreJpeg { folder: Seq<char>, from: Seq<char>, to: Seq<char> },
}

impl View for RouteAction {
    type V = RoutePlan;

    open spec fn view(&self) -> RoutePlan {
        match *self {
            RouteAction::Nothing => RoutePlan::Nothing,
            RouteAction::MoveFile { folder, from, to } => RoutePlan::MoveFile {
                folder: folder@,
                from: from@,
                to: to@,
            },
            RouteAction::StoreJpeg { folder, from, to } => RoutePlan::StoreJpeg {
                folder: folder@,
                from: from@,
                to: to@,
            },
        }
    }
}

/// The outcome of routing, its paths as character sequences.
pub open spec fn plan_view(outcome: Result<RouteAction, ClipError>) -> Result<RoutePlan, ClipError> {
    match outcome {
        Ok(action) => Ok(action@),
        Err(e) => Err(e),
    }
}

/// The folder for captures of the application `identity`.
pub open spec fn spec_target_folder(target_path: Seq<char>, identity: Seq<char>) -> Seq<char> {
    spec_join(target_path, identity)
}

/// How a saved replay at `source` is filed while `window` is in front: it
/// moves into the application's folder under its own file name.
pub open spec fn spec_route_replay(
    target_path: Seq<char>,
    window: WindowSnapshot,
    processes: Seq<ProcessEntry>,
    source: Seq<char>,
) -> Result<RoutePlan, ClipError> {
    match spec_window_name(window, processes) {
        Err(e) => Err(e),
        Ok(identity) => if !spec_has_file_name(source) {
            Err(ClipError::IoError)
        } else {
            let folder = spec_target_folder(target_path, identity);
            Ok(
                RoutePlan::MoveFile {
                    folder,
                    from: source,
                    to: spec_join(folder, spec_file_name(source)),
                },
            )
        },
    }
}

/// How a screenshot at `source` is filed while `window` is in front: it is
/// stored as a JPEG in the application's folder, under its file name without
/// the fixed prefix and with the extension `jpg`.
pub open spec fn spec_route_screenshot(
    target_path: Seq<char>,
    window: WindowSnapshot,
    processes: Seq<ProcessEntry>,
    source: Seq<char>,
) -> Result<RoutePlan, ClipError> {
    if !spec_has_file_name(source) || spec_file_name(source).len() <= SCREENSHOT_PREFIX_LEN {
        Err(ClipError::IoError)
    } else {
        match spec_window_name(window, processes) {
            Err(e) => Err(e),
            Ok(identity) => {
                let folder = spec_target_folder(target_path, identity);
                Ok(
                    RoutePlan::StoreJpeg {
                        folder,
                        from: source,
                        to: spec_join(folder, spec_screenshot_name(spec_file_name(source))),
                    },
                )
            },
        }
    }
}

/// What routing `event` comes to. Without a foreground window nothing is
/// done; without a capture path the capture counts as absent.
pub open spec fn spec_route(
    event: CaptureEvent,
    target_path: Seq<char>,
    window: Option<WindowSnapshot>,
    processes: Seq<ProcessEntry>,
    source: Option<Seq<char>>,
) -> Result<RoutePlan, ClipError> {
    match window {
        None => Ok(RoutePlan::Nothing),
        Some(front) => match source {
            None => Err(ClipError::NotFound),
            Some(path) => match event {
                CaptureEvent::ReplaySaved => spec_route_replay(
                    target_path,
                    front,
                    processes,
                    path,
                ),
                CaptureEvent::ScreenshotTaken => spec_route_screenshot(
                    target_path,
                    front,
                    processes,
                    path,
                ),
            },
        },
    }
}

/// A capture path as a character sequence, where there is one.
pub open spec fn source_view(source: Option<&str>) -> Option<Seq<char>> {
    match source {
        Some(path) => Some(path@),
        None => None,
    }
}

/// A window by value, where there is one.
pub open spec fn window_view(window: Option<&WindowSnapshot>) -> Option<WindowSnapshot> {
    match window {
        Some(front) => Some(*front),
        None => None,
    }
}

/// The folder under `config.target_path` in which captures of `window` are
/// filed, or the error with which its identity could not be resolved.
pub fn get_target_folder(
    window: &WindowSnapshot,
    processes: &Vec<ProcessEntry>,
    config: &Config,
) -> (folder: Result<String, ClipError>)
    ensures
        match spec_window_name(*window, processes@) {
            Ok(identity) => folder is Ok && folder.unwrap()@ == spec_target_folder(
                config.target_path@,
                identity,
            ),
            Err(e) => folder == Err::<String, ClipError>(e),
        },
{
    match get_window_name(window, processes) {
        Ok(identity) => Ok(join(config.target_path.as_str(), identity.as_str())),
        Err(e) => Err(e),
    }
}

/// Plans the filing of the saved replay at `source` while `window` is in front.
pub fn replay_saved(
    config: &Config,
    window: &WindowSnapshot,
    processes: &Vec<ProcessEntry>,
    source: &str,
) -> (outcome: Result<RouteAction, ClipError>)
    ensures
        plan_view(outcome) == spec_route_replay(
            config.target_path@,
            *window,
            processes@,
            source@,
        ),
{
    let folder = match get_target_folder(window, processes, config) {
        Ok(folder) => folder,
        Err(e) => { return Err(e); },
    };
    match file_name_of(source) {
        None => Err(ClipError::IoError),
        Some(name) => {
            let to = join(folder.as_str(), name.as_str());
            Ok(RouteAction::MoveFile { folder, from: String::from_str(source), to })
        },
    }
}

/// Plans the filing of the screenshot at `source` while `window` is in front.
pub fn screenshot_saved(
    config: &Config,
    window: &WindowSnapshot,
    processes: &Vec<ProcessEntry>,
    source: &str,
) -> (outcome: Result<RouteAction, ClipError>)
    ensures
        plan_view(outcome) == spec_route_screenshot(
            config.target_path@,
            *window,
            processes@,
            source@,
        ),
{
    let stored = match file_name_of(source) {
        None => { return Err(ClipError::IoError); },
        Some(name) => match screenshot_name(name.as_str()) {
            None => { return Err(ClipError::IoError); },
            Some(stored) => stored,
        },
    };
    match get_target_folder(window, processes, config) {
        Err(e) => Err(e),
        Ok(folder) => {
            let to = join(folder.as_str(), stored.as_str());
            Ok(RouteAction::StoreJpeg { folder, from: String::from_str(source), to })
        },
    }
}

/// Decides what is done with the capture that `event` announces.
///
/// `window` is the foreground window, `source` the path at which the host
/// left the capture. With no window in front the capture is left alone and
/// routing succeeds. Otherwise a missing path is `NotFound`, a path that
/// names no usable file is `IoError`, and a window whose identity cannot be
/// resolved gives the error of that resolution.
pub fn route_capture(
    event: CaptureEvent,
    config: &Config,
    window: Option<&WindowSnapshot>,
    processes: &Vec<ProcessEntry>,
    source: Option<&str>,
) -> (outcome: Result<RouteAction, ClipError>)
    ensures
        plan_view(outcome) == spec_route(
            event,
            config.target_path@,
            window_view(window),
            processes@,
            source_view(source),
        ),
        window is None ==> plan_view(outcome) == Ok::<RoutePlan, ClipError>(RoutePlan::Nothing),
{
    let front = match window {
        None => { return Ok(RouteAction::Nothing); },
        Some(front) => front,
    };
    let path = match source {
        None => { return Err(ClipError::NotFound); },
        Some(path) => path,
    };
    match event {
        CaptureEvent::ReplaySaved => replay_saved(config, front, processes, path),
        CaptureEvent::ScreenshotTaken => screenshot_saved(config, front, processes, path),
    }
}

/// With no window in front, routing either kind of event succeeds and
/// touches no file, whatever the capture path and the process list.
pub proof fn lemma_no_window_no_action(
    event: CaptureEvent,
    target_path: Seq<char>,
    processes: Seq<ProcessEntry>,
    source: Option<Seq<char>>,
)
    ensures
        spec_route(event, target_path, None, processes, source) == Ok::<RoutePlan, ClipError>(
            RoutePlan::Nothing,
        ),
{
}

/// A routed screenshot lands in the folder of the foreground application,
/// under a name that ends in `.jpg`, and its source is the file that is
/// afterwards deleted.
pub proof fn lemma_screenshot_destination(
    target_path: Seq<char>,
    window: WindowSnapshot,
    processes: Seq<ProcessEntry>,
    source: Seq<char>,
)
    requires
        spec_route_screenshot(target_path, window, processes, source) is Ok,
    ensures
        spec_window_name(window, processes) is Ok,
        spec_route_screenshot(target_path, window, processes, source)
            == Ok::<RoutePlan, ClipError>(
            RoutePlan::StoreJpeg {
                folder: spec_join(target_path, spec_window_name(window, processes).unwrap()),
                from: source,
                to: spec_join(
                    spec_join(target_path, spec_window_name(window, processes).unwrap()),
                    spec_screenshot_name(spec_file_name(source)),
                ),
            },
        ),
        ({
            let name = spec_screenshot_name(spec_file_name(source));
            name.len() >= 4 && name.subrange(name.len() - 4, name.len() as int) == seq![
                '.',
                'j',
                'p',
                'g',
            ]
        }),
{
    let name = spec_screenshot_name(spec_file_name(source));
    assert(name.subrange(name.len() - 4, name.len() as int) =~= seq!['.', 'j', 'p', 'g']);
}

} // verus!

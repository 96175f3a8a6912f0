//! Screens and capture sessions.
//!
//! A capture is opened on one screen, the one asked for or else the primary
//! one, and is kept as a session under its stream identifier until it is
//! stopped. Grabbing frames is the platform's business and not done here;
//! without a platform backend no screen is known.
use crate::desktop::media::fresh_stream_id;
use crate::text::text_eq;
use vstd::prelude::*;

verus! {

/// A screen that can be captured.
#[derive(Debug, Clone, PartialEq, Eq)]
pub struct ScreenInfo {
    pub id: String,
    pub name: String,
    pub width: u32,
    pub height: u32,
    pub is_primary: bool,
}

/// What a capture is asked to be. What is left out is taken from the screen.
#[derive(Debug, Clone, PartialEq, Eq)]
pub struct CaptureOptions {
    pub screen_id: Option<String>,
    pub width: Option<u32>,
    pub height: Option<u32>,
    pub frame_rate: Option<u32>,
}

/// A capture as the front end is told of it.
#[derive(Debug, Clone, PartialEq, Eq)]
pub struct CaptureStream {
    pub stream_id: String,
    pub width: u32,
    pub height: u32,
    pub format: String,
}

/// A capture as it is kept.
#[derive(Debug, Clone, PartialEq, Eq)]
pub struct CaptureSession {
    pub stream_id: String,
    pub is_active: bool,
    pub frame_count: u64,
}

/// Why a capture cannot be opened.
#[derive(Debug, Clone, Copy, PartialEq, Eq, Structural)]
pub enum CaptureError {
    /// No screen has the identifier that was asked for.
    ScreenNotFound,
    /// No screen was asked for, and none is the primary one.
    NoPrimaryScreen,
}

impl CaptureError {
    /// The error in words.
    pub fn message(&self) -> (text: String)
        ensures
            text@ == (match *self {
                CaptureError::ScreenNotFound => "Screen not found"@,
                CaptureError::NoPrimaryScreen => "No primary screen found"@,
            }),
    {
        match self {
            CaptureError::ScreenNotFound => "Screen not found".to_owned(),
            CaptureError::NoPrimaryScreen => "No primary screen found".to_owned(),
        }
    }
}

/// The captures that are open, each under its stream identifier.
pub struct ScreenCaptureState {
    active_captures: Vec<CaptureSession>,
}

/// Whether `screen` is the one that `wanted` asks for: the screen with that
/// identifier, or the primary screen where none is named.
pub open spec fn is_target(screen: ScreenInfo, wanted: Option<String>) -> bool {
    match wanted {
        Some(id) => screen.id@ == id@,
        None => screen.is_primary,
    }
}

/// The place of the first screen that `wanted` asks for, counted from
/// `from`; the number of screens if there is none.
pub open spec fn first_target(screens: Seq<ScreenInfo>, wanted: Option<String>, from: int) -> int
    decreases screens.len() - from,
{
    if from >= screens.len() {
        screens.len() as int
    } else if is_target(screens[from], wanted) {
        from
    } else {
        first_target(screens, wanted, from + 1)
    }
}

/// The capture that `options` ask for on `screen`.
pub open spec fn stream_on(screen: ScreenInfo, options: CaptureOptions, stream_id: String)
    -> CaptureStreamView {
    CaptureStreamView {
        stream_id: stream_id@,
        width: match options.width {
            Some(w) => w,
            None => screen.width,
        },
        height: match options.height {
            Some(h) => h,
            None => screen.height,
        },
        format: "rgba"@,
    }
}

/// The mathematical value of a `CaptureStream`.
pub struct CaptureStreamView {
    pub stream_id: Seq<char>,
    pub width: u32,
    pub height: u32,
    pub format: Seq<char>,
}

impl View for CaptureStream {
    type V = CaptureStreamView;

    open spec fn view(&self) -> CaptureStreamView {
        CaptureStreamView {
            stream_id: self.stream_id@,
            width: self.width,
            height: self.height,
            format: self.format@,
        }
    }
}

/// What is kept of a session besides its identifier.
pub struct SessionState {
    pub is_active: bool,
    pub frame_count: u64,
}

/// What is kept of `session` besides its identifier.
pub open spec fn state_of(session: CaptureSession) -> SessionState {
    SessionState { is_active: session.is_active, frame_count: session.frame_count }
}

/// The sessions of a list by their identifiers. Where the list holds an
/// identifier more than once, the last session counts.
pub open spec fn by_stream_id(sessions: Seq<CaptureSession>) -> Map<Seq<char>, SessionState>
    decreases sessions.len(),
{
    if sessions.len() == 0 {
        Map::empty()
    } else {
        by_stream_id(sessions.drop_last()).insert(
            sessions.last().stream_id@,
            state_of(sessions.last()),
        )
    }
}

/// An identifier is kept exactly if some session of the list has it.
proof fn lemma_kept(sessions: Seq<CaptureSession>, id: Seq<char>)
    ensures
        by_stream_id(sessions).contains_key(id) <==> exists|i: int|
            0 <= i < sessions.len() && (#[trigger] sessions[i]).stream_id@ == id,
    decreases sessions.len(),
{
    if sessions.len() > 0 {
        let init = sessions.drop_last();
        lemma_kept(init, id);
        if by_stream_id(sessions).contains_key(id) && sessions.last().stream_id@ != id {
            let i = choose|i: int| 0 <= i < init.len() && (#[trigger] init[i]).stream_id@ == id;
            assert(sessions[i].stream_id@ == id);
        }
        if exists|i: int| 0 <= i < sessions.len() && (#[trigger] sessions[i]).stream_id@ == id {
            let i = choose|i: int|
                0 <= i < sessions.len() && (#[trigger] sessions[i]).stream_id@ == id;
            if i < init.len() {
                assert(init[i].stream_id@ == id);
            }
        }
    }
}

/// The session that counts for an identifier is the last one that has it.
proof fn lemma_last_counts(sessions: Seq<CaptureSession>, id: Seq<char>, at: int)
    requires
        0 <= at < sessions.len(),
        sessions[at].stream_id@ == id,
        forall|j: int| at < j < sessions.len() ==> (#[trigger] sessions[j]).stream_id@ != id,
    ensures
        by_stream_id(sessions).contains_key(id),
        by_stream_id(sessions)[id] == state_of(sessions[at]),
    decreases sessions.len(),
{
    if at < sessions.len() - 1 {
        let init = sessions.drop_last();
        assert(forall|j: int| at < j < init.len() ==> (#[trigger] init[j]) == sessions[j]);
        lemma_last_counts(init, id, at);
    }
}

impl View for ScreenCaptureState {
    type V = Map<Seq<char>, SessionState>;

    closed spec fn view(&self) -> Map<Seq<char>, SessionState> {
        by_stream_id(self.active_captures@)
    }
}

/// Adds the screens of the system to `screens`. There is no platform
/// backend, so none is added.
pub fn enumerate_screens(screens: &mut Vec<ScreenInfo>) -> (r: Result<(), String>)
    ensures
        r is Ok,
        *final(screens) == *old(screens),
{
    Ok(())
}

/// The screens of the system.
pub fn get_available_screens() -> (r: Result<Vec<ScreenInfo>, String>)
    ensures
        r matches Ok(screens) && screens@.len() == 0,
{
    let mut screens: Vec<ScreenInfo> = Vec::new();
    match enumerate_screens(&mut screens) {
        Ok(()) => Ok(screens),
        Err(e) => Err(e),
    }
}

/// Picks the screen to capture: the first with the identifier `wanted`, or
/// the first primary screen where no identifier is given.
pub fn select_screen(screens: Vec<ScreenInfo>, wanted: &Option<String>) -> (r: Result<
    ScreenInfo,
    CaptureError,
>)
    ensures
        match r {
            Ok(screen) => first_target(screens@, *wanted, 0) < screens@.len() && screen
                == screens@[first_target(screens@, *wanted, 0)],
            Err(e) => first_target(screens@, *wanted, 0) == screens@.len() && e == (match *wanted {
                Some(_) => CaptureError::ScreenNotFound,
                None => CaptureError::NoPrimaryScreen,
            }),
        },
{
    let ghost all = screens@;
    let mut pool = screens;
    let mut i: usize = 0;
    while i < pool.len()
        invariant
            i <= pool.len(),
            pool@ == all,
            all == screens@,
            first_target(all, *wanted, 0) == first_target(all, *wanted, i as int),
        decreases pool.len() - i,
    {
        let hit = match wanted {
            Some(id) => text_eq(pool[i].id.as_str(), id.as_str()),
            None => pool[i].is_primary,
        };
        if hit {
            return Ok(pool.swap_remove(i));
        }
        i += 1;
    }
    match wanted {
        Some(_) => Err(CaptureError::ScreenNotFound),
        None => Err(CaptureError::NoPrimaryScreen),
    }
}

impl ScreenCaptureState {
    /// No capture is open.
    pub fn new() -> (state: ScreenCaptureState)
        ensures
            state@ == Map::<Seq<char>, SessionState>::empty(),
    {
        ScreenCaptureState { active_captures: Vec::new() }
    }

    fn position(&self, stream_id: &str) -> (at: Option<usize>)
        ensures
            match at {
                Some(i) => i < self.active_captures@.len() && self@.contains_key(stream_id@)
                    && self.active_captures@[i as int].stream_id@ == stream_id@
                    && self@[stream_id@] == state_of(self.active_captures@[i as int]),
                None => !self@.contains_key(stream_id@),
            },
    {
        let ghost sessions = self.active_captures@;
        let mut i: usize = self.active_captures.len();
        while i > 0
            invariant
                i <= self.active_captures.len(),
                sessions == self.active_captures@,
                forall|j: int| i <= j < sessions.len() ==> (#[trigger] sessions[j]).stream_id@
                    != stream_id@,
            decreases i,
        {
            i -= 1;
            if text_eq(self.active_captures[i].stream_id.as_str(), stream_id) {
                proof {
                    lemma_last_counts(sessions, stream_id@, i as int);
                }
                return Some(i);
            }
        }
        proof {
            lemma_kept(sessions, stream_id@);
        }
        None
    }

    /// The session kept under `stream_id`, if there is one.
    pub fn status(&self, stream_id: &str) -> (r: Option<CaptureSession>)
        ensures
            match r {
                Some(s) => self@.contains_key(stream_id@) && s.stream_id@ == stream_id@
                    && self@[stream_id@] == state_of(s),
                None => !self@.contains_key(stream_id@),
            },
    {
        match self.position(stream_id) {
            Some(i) => {
                let kept = &self.active_captures[i];
                Some(
                    CaptureSession {
                        stream_id: kept.stream_id.clone(),
                        is_active: kept.is_active,
                        frame_count: kept.frame_count,
                    },
                )
            },
            None => None,
        }
    }

    /// Forgets the session kept under `stream_id`. Returns whether there
    /// was one.
    pub fn remove(&mut self, stream_id: &str) -> (removed: bool)
        ensures
            final(self)@ == old(self)@.remove(stream_id@),
            removed == old(self)@.contains_key(stream_id@),
    {
        let ghost sessions = self.active_captures@;
        let mut kept: Vec<CaptureSession> = Vec::new();
        let mut removed = false;
        let mut i: usize = 0;
        while i < self.active_captures.len()
            invariant
                i <= self.active_captures.len(),
                sessions == self.active_captures@,
                removed == by_stream_id(sessions.take(i as int)).contains_key(stream_id@),
                by_stream_id(kept@) == by_stream_id(sessions.take(i as int)).remove(stream_id@),
            decreases self.active_captures.len() - i,
        {
            let ghost kept_before = kept@;
            let s = &self.active_captures[i];
            proof {
                assert(sessions.take(i + 1).drop_last() == sessions.take(i as int));
            }
            if text_eq(s.stream_id.as_str(), stream_id) {
                removed = true;
            } else {
                kept.push(
                    CaptureSession {
                        stream_id: s.stream_id.clone(),
                        is_active: s.is_active,
                        frame_count: s.frame_count,
                    },
                );
                assert(kept@.drop_last() == kept_before);
            }
            i += 1;
        }
        assert(sessions.take(i as int) == sessions);
        self.active_captures = kept;
        removed
    }

    /// Keeps `session` under its identifier, in place of any session kept
    /// there before.
    pub fn insert(&mut self, session: CaptureSession)
        ensures
            final(self)@ == old(self)@.insert(session.stream_id@, state_of(session)),
    {
        self.remove(session.stream_id.as_str());
        let ghost mid = self.active_captures@;
        self.active_captures.push(session);
        proof {
            assert(self.active_captures@.drop_last() == mid);
        }
    }
}

/// Starts grabbing frames of a screen for a stream. There is no platform
/// backend: nothing is started, and nothing can fail.
pub fn start_capture(
    _stream_id: &str,
    _screen: &ScreenInfo,
    _width: u32,
    _height: u32,
    _frame_rate: Option<u32>,
) -> (r: Result<(), CaptureError>)
    ensures
        r is Ok,
{
    Ok(())
}

/// Stops grabbing frames for a stream. There is no platform backend:
/// nothing runs that could be stopped, and nothing can fail.
pub fn stop_capture(_stream_id: &str) -> (r: Result<(), CaptureError>)
    ensures
        r is Ok,
{
    Ok(())
}

/// Opens a capture on one of `screens` and keeps it in `state` under
/// `stream_id`. The screen is the first with the identifier that the options
/// name, or the first primary screen where they name none; width and height
/// are those of the options, and of the screen where the options leave them
/// out. The session starts active, with no frame counted. Where no screen
/// fits, nothing is kept.
pub fn open_capture(
    options: CaptureOptions,
    screens: Vec<ScreenInfo>,
    stream_id: String,
    state: &mut ScreenCaptureState,
) -> (r: Result<CaptureStream, CaptureError>)
    ensures
        match r {
            Ok(stream) => {
                let at = first_target(screens@, options.screen_id, 0);
                &&& at < screens@.len()
                &&& stream@ == stream_on(screens@[at], options, stream_id)
                &&& final(state)@ == old(state)@.insert(
                    stream_id@,
                    SessionState { is_active: true, frame_count: 0 },
                )
            },
            Err(e) => {
                &&& first_target(screens@, options.screen_id, 0) == screens@.len()
                &&& e == (match options.screen_id {
                    Some(_) => CaptureError::ScreenNotFound,
                    None => CaptureError::NoPrimaryScreen,
                })
                &&& final(state)@ == old(state)@
            },
        },
{
    let target = match select_screen(screens, &options.screen_id) {
        Ok(screen) => screen,
        Err(e) => {
            return Err(e);
        },
    };
    let width = match options.width {
        Some(w) => w,
        None => target.width,
    };
    let height = match options.height {
        Some(h) => h,
        None => target.height,
    };
    match start_capture(stream_id.as_str(), &target, width, height, options.frame_rate) {
        Ok(()) => {},
        Err(e) => {
            return Err(e);
        },
    }
    state.insert(CaptureSession { stream_id: stream_id.clone(), is_active: true, frame_count: 0 });
    Ok(CaptureStream { stream_id, width, height, format: "rgba".to_owned() })
}

/// Opens a capture under a fresh stream identifier, on a screen of the
/// system. As long as no screen is known, this fails: with `ScreenNotFound`
/// where a screen is asked for, and with `NoPrimaryScreen` where none is.
pub fn start_capture_session(options: CaptureOptions, state: &mut ScreenCaptureState) -> (r: Result<
    CaptureStream,
    CaptureError,
>)
    ensures
        r matches Err(e) && e == (match options.screen_id {
            Some(_) => CaptureError::ScreenNotFound,
            None => CaptureError::NoPrimaryScreen,
        }),
        final(state)@ == old(state)@,
{
    let screens = match get_available_screens() {
        Ok(screens) => screens,
        Err(_) => Vec::new(),
    };
    open_capture(options, screens, fresh_stream_id(), state)
}

/// Looks the capture `stream_id` up among the open ones.
pub fn get_capture_status(stream_id: &str, state: &ScreenCaptureState) -> (r: Result<
    Option<CaptureSession>,
    CaptureError,
>)
    ensures
        match r {
            Ok(Some(s)) => state@.contains_key(stream_id@) && s.stream_id@ == stream_id@
                && state@[stream_id@] == state_of(s),
            Ok(None) => !state@.contains_key(stream_id@),
            Err(_) => false,
        },
{
    Ok(state.status(stream_id))
}

/// Stops the capture `stream_id` and forgets its session. Returns whether
/// there was one.
pub fn stop_capture_session(stream_id: String, state: &mut ScreenCaptureState) -> (r: Result<
    bool,
    CaptureError,
>)
    ensures
        r == Ok::<bool, CaptureError>(old(state)@.contains_key(stream_id@)),
        final(state)@ == old(state)@.remove(stream_id@),
{
    match stop_capture(stream_id.as_str()) {
        Ok(()) => {},
        Err(e) => {
            return Err(e);
        },
    }
    Ok(state.remove(stream_id.as_str()))
}

} // verus!

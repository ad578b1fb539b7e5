//! The player's own state: the flags mirrored from the playback pipeline,
//! how user actions and bus messages change them, and the errors surfaced
//! to the interface.

use vstd::prelude::*;
use vstd::string::StringExecFns;

verus! {

/// The errors a player operation surfaces to the interface.
#[derive(Debug)]
pub enum MediaPlayerErrors {
    ErrorSeekingForward(String),
    ErrorSeekingBackward(String),
    ErrorSeeking(String),
    ErrorSeekingUnavailable,
    ErrorGettingPosition,
    ErrorPlaying(String),
    Errorstopping(String),
    ErrorPausing(String),
}

/// The message text shown for each error.
pub open spec fn spec_error_message(e: MediaPlayerErrors) -> Seq<char> {
    match e {
        MediaPlayerErrors::ErrorSeekingForward(_) => "Unable to seek forward with this media. Check if you're using a stream"@,
        MediaPlayerErrors::ErrorSeekingBackward(_) => "Unable to seek backward with this media. Check if you're using a stream"@,
        MediaPlayerErrors::ErrorSeeking(_) => "Unable to seek to the specified position with this media. Check if you're using a stream"@,
        MediaPlayerErrors::ErrorSeekingUnavailable => "Seek is unavailable for this media"@,
        MediaPlayerErrors::ErrorGettingPosition => "Unable to get position in this media. Check if you're using a stream"@,
        MediaPlayerErrors::ErrorPlaying(_) => "Error playing media"@,
        MediaPlayerErrors::Errorstopping(_) => "Error stopping media"@,
        MediaPlayerErrors::ErrorPausing(_) => "Error pausing media"@,
    }
}

impl MediaPlayerErrors {
    /// The message text for this error.
    pub fn message(&self) -> (r: String)
        ensures
            r@ == spec_error_message(*self),
    {
        match self {
            MediaPlayerErrors::ErrorSeekingForward(_) => String::from_str(
                "Unable to seek forward with this media. Check if you're using a stream",
            ),
            MediaPlayerErrors::ErrorSeekingBackward(_) => String::from_str(
                "Unable to seek backward with this media. Check if you're using a stream",
            ),
            MediaPlayerErrors::ErrorSeeking(_) => String::from_str(
                "Unable to seek to the specified position with this media. Check if you're using a stream",
            ),
            MediaPlayerErrors::ErrorSeekingUnavailable => String::from_str(
                "Seek is unavailable for this media",
            ),
            MediaPlayerErrors::ErrorGettingPosition => String::from_str(
                "Unable to get position in this media. Check if you're using a stream",
            ),
            MediaPlayerErrors::ErrorPlaying(_) => String::from_str("Error playing media"),
            MediaPlayerErrors::Errorstopping(_) => String::from_str("Error stopping media"),
            MediaPlayerErrors::ErrorPausing(_) => String::from_str("Error pausing media"),
        }
    }
}

/// What a bus message tells the player, reduced to the parts the state
/// transition reads.
#[derive(Clone, Copy, PartialEq, Eq, Structural, Debug)]
pub enum BusMessage {
    /// An element reported an error.
    Error,
    /// The media's duration is no longer what was last queried.
    DurationChanged,
    /// An element changed state; `from_playbin` says whether the source is
    /// the player's own pipeline, and `is_playing` whether the new state is
    /// the playing one.
    StateChanged { from_playbin: bool, is_playing: bool },
    /// Any other message; the player ignores it.
    Other,
}

/// What the caller must query from the pipeline after a message is handled.
#[derive(Clone, Copy, PartialEq, Eq, Structural, Debug)]
pub enum BusDirective {
    /// Nothing to query.
    QueryNothing,
    /// Query whether the media is seekable and hand it to `set_seekable`.
    QuerySeekable,
    /// Query the duration and seekability and hand them to
    /// `set_queried_duration` and `set_seekable`.
    QueryDurationAndSeekable,
}

/// The flags mirrored from the playback pipeline. The volume is held in
/// thousandths of full scale, `0` through `1000`.
#[derive(Clone, Copy, PartialEq, Eq, Debug)]
pub struct PlayerState {
    /// Is the player in the playing state?
    pub playing: bool,
    /// Is seeking enabled for this media?
    pub seek_enabled: bool,
    /// How long this media lasts, in nanoseconds, when known.
    pub duration: Option<u64>,
    /// Is the user dragging the seek slider right now?
    pub user_is_seeking: bool,
    /// Current volume, in thousandths of full scale.
    pub volume: u32,
    /// Is the player muted?
    pub muted: bool,
    /// Volume before muting, in thousandths, restored on unmute.
    pub volume_before_mute: u32,
}

/// `v` held to the volume scale: anything above full scale becomes full
/// scale.
pub open spec fn spec_clamped_volume(v: u32) -> u32 {
    if v > 1000 {
        1000
    } else {
        v
    }
}

impl PlayerState {
    /// Both volume fields are on the volume scale.
    pub open spec fn wf(self) -> bool {
        self.volume <= 1000 && self.volume_before_mute <= 1000
    }

    /// The state a freshly built player starts in: stopped, not seekable,
    /// duration unknown, volume at half scale, unmuted.
    pub open spec fn spec_initial() -> PlayerState {
        PlayerState {
            playing: false,
            seek_enabled: false,
            duration: None,
            user_is_seeking: false,
            volume: 500,
            muted: false,
            volume_before_mute: 500,
        }
    }

    /// How setting the volume changes the state: the clamped value becomes
    /// the volume, and, unless the player is muted, also the volume to
    /// restore on unmute.
    pub open spec fn spec_set_volume(s: PlayerState, v: u32) -> PlayerState {
        PlayerState {
            volume: spec_clamped_volume(v),
            volume_before_mute: if s.muted {
                s.volume_before_mute
            } else {
                spec_clamped_volume(v)
            },
            ..s
        }
    }

    /// How toggling mute changes the state: muting saves the volume and
    /// silences the player, unmuting restores the saved volume.
    pub open spec fn spec_toggle_mute(s: PlayerState) -> PlayerState {
        if s.muted {
            PlayerState { volume: s.volume_before_mute, muted: false, ..s }
        } else {
            PlayerState { volume: 0, muted: true, volume_before_mute: s.volume, ..s }
        }
    }

    /// How a bus message changes the state, and what the caller must query
    /// from the pipeline afterwards: a duration change forgets the cached
    /// duration; a state change of the player's own pipeline records whether
    /// it is playing, and while playing the pipeline is asked for
    /// seekability, plus the duration when none is cached.
    pub open spec fn spec_handle_message(s: PlayerState, msg: BusMessage) -> (
        PlayerState,
        BusDirective,
    ) {
        match msg {
            BusMessage::Error => (s, BusDirective::QueryNothing),
            BusMessage::DurationChanged => (
                PlayerState { duration: None, ..s },
                BusDirective::QueryNothing,
            ),
            BusMessage::StateChanged { from_playbin, is_playing } => {
                if !from_playbin {
                    (s, BusDirective::QueryNothing)
                } else {
                    let t = PlayerState { playing: is_playing, ..s };
                    if is_playing && s.duration is None {
                        (t, BusDirective::QueryDurationAndSeekable)
                    } else if is_playing {
                        (t, BusDirective::QuerySeekable)
                    } else {
                        (t, BusDirective::QueryNothing)
                    }
                }
            },
            BusMessage::Other => (s, BusDirective::QueryNothing),
        }
    }

    /// The flags a freshly built player mirrors before any bus message
    /// arrives.
    pub fn build() -> (r: PlayerState)
        ensures
            r == Self::spec_initial(),
            r.wf(),
    {
        PlayerState {
            playing: false,
            seek_enabled: false,
            duration: None,
            user_is_seeking: false,
            volume: 500,
            muted: false,
            volume_before_mute: 500,
        }
    }

    /// Is the user dragging the seek slider right now?
    pub fn user_is_seeking(&self) -> (r: bool)
        ensures
            r == self.user_is_seeking,
    {
        self.user_is_seeking
    }

    /// How long this media lasts, in nanoseconds, when known.
    pub fn duration(&self) -> (r: Option<u64>)
        ensures
            r == self.duration,
    {
        self.duration
    }

    /// Is seeking enabled for this media?
    pub fn seek_enabled(&self) -> (r: bool)
        ensures
            r == self.seek_enabled,
    {
        self.seek_enabled
    }

    /// Is the player in the playing state?
    pub fn playing(&self) -> (r: bool)
        ensures
            r == self.playing,
    {
        self.playing
    }

    /// Records whether the user is dragging the seek slider.
    pub fn set_user_is_seeking(&mut self, user_is_seeking: bool)
        ensures
            *final(self) == (PlayerState { user_is_seeking, ..*old(self) }),
    {
        self.user_is_seeking = user_is_seeking;
    }

    /// Sets the volume, held to the volume scale; unless muted, the value is
    /// also what an unmute will restore.
    pub fn set_volume(&mut self, volume: u32)
        ensures
            *final(self) == Self::spec_set_volume(*old(self), volume),
            old(self).wf() ==> final(self).wf(),
    {
        let clamped: u32 = if volume > 1000 {
            1000
        } else {
            volume
        };
        self.volume = clamped;
        if !self.muted {
            self.volume_before_mute = clamped;
        }
    }

    /// Current volume, in thousandths of full scale.
    pub fn get_volume(&self) -> (r: u32)
        ensures
            r == self.volume,
    {
        self.volume
    }

    /// Mutes an unmuted player, remembering the volume; unmutes a muted one,
    /// restoring it.
    pub fn toggle_mute(&mut self)
        ensures
            *final(self) == Self::spec_toggle_mute(*old(self)),
    {
        if self.muted {
            self.volume = self.volume_before_mute;
            self.muted = false;
        } else {
            self.volume_before_mute = self.volume;
            self.volume = 0;
            self.muted = true;
        }
    }

    /// Is the player muted?
    pub fn is_muted(&self) -> (r: bool)
        ensures
            r == self.muted,
    {
        self.muted
    }

    /// Applies a bus message to the state and says what the caller must
    /// query from the pipeline next.
    pub fn handle_message(&mut self, msg: &BusMessage) -> (d: BusDirective)
        ensures
            *final(self) == Self::spec_handle_message(*old(self), *msg).0,
            d == Self::spec_handle_message(*old(self), *msg).1,
    {
        match *msg {
            BusMessage::Error => BusDirective::QueryNothing,
            BusMessage::DurationChanged => {
                self.duration = None;
                BusDirective::QueryNothing
            },
            BusMessage::StateChanged { from_playbin, is_playing } => {
                if !from_playbin {
                    BusDirective::QueryNothing
                } else {
                    let had_duration = self.duration.is_some();
                    self.playing = is_playing;
                    if is_playing && !had_duration {
                        BusDirective::QueryDurationAndSeekable
                    } else if is_playing {
                        BusDirective::QuerySeekable
                    } else {
                        BusDirective::QueryNothing
                    }
                }
            },
            BusMessage::Other => BusDirective::QueryNothing,
        }
    }

    /// Records the duration the pipeline answered a query with.
    pub fn set_queried_duration(&mut self, duration: Option<u64>)
        ensures
            *final(self) == (PlayerState { duration, ..*old(self) }),
    {
        self.duration = duration;
    }

    /// Records the seekability the pipeline answered a query with.
    pub fn set_seekable(&mut self, seekable: bool)
        ensures
            *final(self) == (PlayerState { seek_enabled: seekable, ..*old(self) }),
    {
        self.seek_enabled = seekable;
    }

    /// The guard of a positioned seek: permission when seeking is enabled,
    /// the seek-unavailable error otherwise.
    pub fn check_seekable(&self) -> (r: Result<(), MediaPlayerErrors>)
        ensures
            r == if self.seek_enabled {
                Ok::<(), MediaPlayerErrors>(())
            } else {
                Err::<(), MediaPlayerErrors>(MediaPlayerErrors::ErrorSeekingUnavailable)
            },
    {
        if self.seek_enabled {
            Ok(())
        } else {
            Err(MediaPlayerErrors::ErrorSeekingUnavailable)
        }
    }

    /// Where a ten-second forward seek from `position_ns` lands, or nothing
    /// when seeking is disabled and no seek is to be issued.
    pub fn move_forward_target(&self, position_ns: u64) -> (r: Option<u64>)
        requires
            position_ns + 10_000_000_000 <= u64::MAX,
        ensures
            r == if self.seek_enabled {
                Some((position_ns + 10_000_000_000) as u64)
            } else {
                None::<u64>
            },
    {
        if !self.seek_enabled {
            return None;
        }
        Some(position_ns + 10_000_000_000)
    }

    /// Where a ten-second backward seek from `position_ns` lands, stopping
    /// at the start, or nothing when seeking is disabled and no seek is to
    /// be issued.
    pub fn move_backward_target(&self, position_ns: u64) -> (r: Option<u64>)
        ensures
            r == if self.seek_enabled {
                Some(
                    if position_ns > 10_000_000_000 {
                        (position_ns - 10_000_000_000) as u64
                    } else {
                        0u64
                    },
                )
            } else {
                None::<u64>
            },
    {
        if !self.seek_enabled {
            return None;
        }
        if position_ns > 10_000_000_000 {
            Some(position_ns - 10_000_000_000)
        } else {
            Some(0)
        }
    }
}

/// The playback position a pipeline query yielded: the position itself, or
/// the position error when the query answered nothing.
pub fn position_from_query(query: Option<u64>) -> (r: Result<u64, MediaPlayerErrors>)
    ensures
        r == match query {
            Some(p) => Ok::<u64, MediaPlayerErrors>(p),
            None => Err::<u64, MediaPlayerErrors>(MediaPlayerErrors::ErrorGettingPosition),
        },
{
    match query {
        Some(p) => Ok(p),
        None => Err(MediaPlayerErrors::ErrorGettingPosition),
    }
}

/// The browser player stub: the source URL it will play, and the same
/// mirrored flags as the desktop player.
pub struct BrowserMediaPlayer {
    /// Source URL of the media.
    pub src: String,
    /// The mirrored player flags.
    pub state: PlayerState,
}

impl BrowserMediaPlayer {
    /// A freshly built browser player for a source URL: it starts with the
    /// same flags as a freshly built desktop player.
    pub fn build(src: String) -> (r: BrowserMediaPlayer)
        ensures
            r.src == src,
            r.state == PlayerState::spec_initial(),
    {
        BrowserMediaPlayer { src, state: PlayerState::build() }
    }

    /// Is the player in the playing state?
    pub fn playing(&self) -> (r: bool)
        ensures
            r == self.state.playing,
    {
        self.state.playing()
    }

    /// Is seeking enabled for this media?
    pub fn can_seek(&self) -> (r: bool)
        ensures
            r == self.state.seek_enabled,
    {
        self.state.seek_enabled()
    }
}

/// Muting and then unmuting an unmuted player restores its volume and its
/// mute flag.
pub proof fn lemma_toggle_mute_round_trip(s: PlayerState)
    requires
        !s.muted,
    ensures
        ({
            let t = PlayerState::spec_toggle_mute(PlayerState::spec_toggle_mute(s));
            t.volume == s.volume && t.muted == s.muted
        }),
{
}

} // verus!

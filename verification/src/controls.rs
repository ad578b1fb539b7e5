//! The capability traits a media player offers the interface, grouped as the
//! players implement them. Time is carried in nanoseconds and volume in
//! thousandths of full scale.

use vstd::prelude::*;

use crate::player::MediaPlayerErrors;

verus! {

/// Trait for playback control.
pub trait PlaybackControl {
    /// Play the media.
    fn play(&self) -> Result<(), MediaPlayerErrors>;

    /// Pause the media.
    fn pause(&self) -> Result<(), MediaPlayerErrors>;

    /// Stop the media.
    fn stop(&self) -> Result<(), MediaPlayerErrors>;

    /// Check if the media is playing.
    fn playing(&self) -> bool;
}

/// Trait for seek control.
pub trait SeekControl {
    /// Move the media forward by 10 seconds.
    fn seek_forward(&self) -> Result<(), MediaPlayerErrors>;

    /// Move the media backward by 10 seconds.
    fn seek_backward(&self) -> Result<(), MediaPlayerErrors>;

    /// Seek to a specific position in the media, in nanoseconds.
    fn seek_to(&self, position: u64) -> Result<(), MediaPlayerErrors>;

    /// Returns the media duration in nanoseconds, when known.
    fn duration(&self) -> Option<u64>;

    /// Check if seeking is supported for this media.
    fn can_seek(&self) -> bool;

    /// Get the current playback position, in nanoseconds.
    fn position(&self) -> Result<u64, MediaPlayerErrors>;

    /// Returns if the user is seeking the media.
    fn user_is_seeking(&self) -> bool;

    /// Set if the user is seeking the media.
    fn set_user_is_seeking(&mut self, user_is_seeking: bool);
}

/// Trait for volume control.
pub trait VolumeControl {
    /// Set the volume, in thousandths of full scale.
    fn set_volume(&mut self, volume: u32);

    /// Get the current volume, in thousandths of full scale.
    fn get_volume(&self) -> u32;

    /// Toggle mute/unmute.
    fn toggle_mute(&mut self);

    /// Check if the player is muted.
    fn is_muted(&self) -> bool;
}

/// The full set of player capabilities.
pub trait MediaPlayerControl: PlaybackControl + SeekControl + VolumeControl {

}

} // verus!

//! The shared install state.
//!
//! One record of the user's choices plus the cooperative abort flag. An
//! embedding keeps it behind a mutual-exclusion lock and holds the lock only
//! for a single call here, never across blocking work: the controller writes
//! it on user intent, the worker only samples `abort_requested` at stage
//! boundaries. The abort flag can only be raised — no method here clears it
//! — so once set it stays set for the rest of the run; only the launch of a
//! fresh run lowers it again.

use vstd::prelude::*;

verus! {

/// Volume denominator: this value stands for full volume (1.0).
pub const FULL_VOLUME: u32 = 10000;

/// The user's choices and the abort flag.
pub struct InstallState {
    /// Where the install unpacks, as a path string.
    pub destination: String,
    /// Standard vs. deluxe variant.
    pub deluxe_variant: bool,
    /// Whether the optional-asset stages are part of the pipeline.
    pub include_optional_assets: bool,
    /// Playback volume, fixed-point out of `FULL_VOLUME`.
    pub volume: u32,
    /// Cooperative cancellation: raised by the controller, sampled by the
    /// worker at stage boundaries.
    pub abort_requested: bool,
}

impl InstallState {
    /// The volume never exceeds full.
    pub open spec fn wf(self) -> bool {
        self.volume <= FULL_VOLUME
    }

    /// The session's initial state: the given starting directory, both
    /// variant flags off, full volume, no abort requested.
    pub fn new(initial_destination: String) -> (s: Self)
        ensures
            s.wf(),
            s.destination == initial_destination,
            !s.deluxe_variant,
            !s.include_optional_assets,
            s.volume == FULL_VOLUME,
            !s.abort_requested,
    {
        InstallState {
            destination: initial_destination,
            deluxe_variant: false,
            include_optional_assets: false,
            volume: FULL_VOLUME,
            abort_requested: false,
        }
    }

    /// Flips the deluxe-variant choice.
    pub fn toggle_deluxe_variant(&mut self)
        ensures
            final(self).deluxe_variant == !old(self).deluxe_variant,
            final(self).destination == old(self).destination,
            final(self).include_optional_assets == old(self).include_optional_assets,
            final(self).volume == old(self).volume,
            final(self).abort_requested == old(self).abort_requested,
    {
        self.deluxe_variant = !self.deluxe_variant;
    }

    /// Flips the optional-assets choice.
    pub fn toggle_optional_assets(&mut self)
        ensures
            final(self).include_optional_assets == !old(self).include_optional_assets,
            final(self).destination == old(self).destination,
            final(self).deluxe_variant == old(self).deluxe_variant,
            final(self).volume == old(self).volume,
            final(self).abort_requested == old(self).abort_requested,
    {
        self.include_optional_assets = !self.include_optional_assets;
    }

    /// Mute toggle: muted becomes full volume, anything audible becomes
    /// muted. Returns the new volume for the playback collaborator.
    pub fn toggle_volume(&mut self) -> (v: u32)
        ensures
            final(self).volume == (if old(self).volume == 0 {
                FULL_VOLUME
            } else {
                0u32
            }),
            v == final(self).volume,
            final(self).wf(),
            final(self).destination == old(self).destination,
            final(self).deluxe_variant == old(self).deluxe_variant,
            final(self).include_optional_assets == old(self).include_optional_assets,
            final(self).abort_requested == old(self).abort_requested,
    {
        if self.volume == 0 {
            self.volume = FULL_VOLUME;
        } else {
            self.volume = 0;
        }
        self.volume
    }

    /// Raises the abort flag. No method lowers it again: once requested, an
    /// abort stays requested for the rest of the run.
    pub fn request_abort(&mut self)
        ensures
            final(self).abort_requested,
            final(self).destination == old(self).destination,
            final(self).deluxe_variant == old(self).deluxe_variant,
            final(self).include_optional_assets == old(self).include_optional_assets,
            final(self).volume == old(self).volume,
    {
        self.abort_requested = true;
    }

    /// Takes a freshly picked destination, together with what the filesystem
    /// collaborator observed about it: the destination changes exactly when
    /// the pick is an existing directory that is not a filesystem root.
    pub fn set_destination(&mut self, dir: String, is_dir: bool, has_parent: bool) -> (updated:
        bool)
        ensures
            updated == (is_dir && has_parent),
            updated ==> final(self).destination == dir,
            !updated ==> final(self).destination == old(self).destination,
            final(self).deluxe_variant == old(self).deluxe_variant,
            final(self).include_optional_assets == old(self).include_optional_assets,
            final(self).volume == old(self).volume,
            final(self).abort_requested == old(self).abort_requested,
    {
        if is_dir && has_parent {
            self.destination = dir;
            true
        } else {
            false
        }
    }
}

} // verus!

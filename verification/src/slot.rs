//! Audio slots: named, file-backed artifacts produced by synthesis and
//! consumed by playback, plus the observation type through which the shell
//! reports what the file system currently shows for a slot's file.

use vstd::prelude::*;

verus! {

/// Name of the slot reserved for play-mode caching.
pub fn play_mode_slot_name() -> (r: &'static str)
    ensures
        r@ == "play_mode_audio"@,
{
    "play_mode_audio"
}

/// Slot name used when a play request names no slot.
pub fn default_slot_name() -> (r: &'static str)
    ensures
        r@ == "output"@,
{
    "output"
}

/// The file backing slot `name`, relative to the working directory.
pub open spec fn spec_audio_file_path(name: Seq<char>) -> Seq<char> {
    "export/"@ + name + ".mp3"@
}

/// Path of the file backing the slot called `name`.
pub fn get_audio_file_path(name: &str) -> (r: String)
    ensures
        r@ == spec_audio_file_path(name@),
{
    let mut path = String::from_str("export/");
    path.append(name);
    path.append(".mp3");
    path
}

/// A slot reference: either the reserved play-mode slot or a caller-named one.
#[derive(Debug, Clone, PartialEq, Eq)]
pub enum Slot {
    PlayMode,
    Named { name: String },
}

impl Slot {
    /// The slot's name as it appears in its file name.
    pub open spec fn spec_name(self) -> Seq<char> {
        match self {
            Slot::PlayMode => "play_mode_audio"@,
            Slot::Named { name } => name@,
        }
    }

    /// The single predicate deciding whether a slot is the play-mode slot.
    pub open spec fn spec_is_play_mode(self) -> bool {
        self is PlayMode
    }

    pub fn is_play_mode(&self) -> (r: bool)
        ensures
            r == self.spec_is_play_mode(),
    {
        match self {
            Slot::PlayMode => true,
            Slot::Named { .. } => false,
        }
    }

    pub fn name(&self) -> (r: String)
        ensures
            r@ == self.spec_name(),
    {
        match self {
            Slot::PlayMode => String::from_str(play_mode_slot_name()),
            Slot::Named { name } => name.clone(),
        }
    }

    /// Path of the file backing this slot.
    pub fn file_path(&self) -> (r: String)
        ensures
            r@ == spec_audio_file_path(self.spec_name()),
    {
        let name = self.name();
        get_audio_file_path(name.as_str())
    }

    /// The slot a play request for `name` refers to: while play mode is
    /// active always the play-mode slot; otherwise the named slot, with an
    /// empty name standing for the default slot.
    pub fn resolve_play_slot(name: &str, play_mode: bool) -> (r: Slot)
        ensures
            play_mode ==> r == Slot::PlayMode,
            !play_mode && name@.len() == 0 ==> r.spec_name() == "output"@ && !r.spec_is_play_mode(),
            !play_mode && name@.len() > 0 ==> r.spec_name() == name@ && !r.spec_is_play_mode(),
    {
        if play_mode {
            Slot::PlayMode
        } else if name.unicode_len() == 0 {
            Slot::Named { name: String::from_str(default_slot_name()) }
        } else {
            Slot::Named { name: String::from_str(name) }
        }
    }
}

/// What one look at a slot's backing file showed: whether it exists and, if
/// so, its size in bytes.
#[derive(Debug, Clone, Copy, PartialEq, Eq)]
pub struct FileProbe {
    pub exists: bool,
    pub size: u64,
}

/// A slot file is complete and safe to play exactly when it exists with
/// non-zero length; an absent or zero-length file means "must regenerate".
pub open spec fn probe_ready(p: FileProbe) -> bool {
    p.exists && p.size > 0
}

/// Whether the observed slot file is complete and safe to hand to playback.
pub fn file_ready(p: &FileProbe) -> (r: bool)
    ensures
        r == probe_ready(*p),
{
    p.exists && p.size > 0
}

/// Whether the slot's backing file was present at all in the given
/// observation, complete or not.
pub fn check_audio_file_exists(p: &FileProbe) -> (r: bool)
    ensures
        r == p.exists,
{
    p.exists
}

} // verus!

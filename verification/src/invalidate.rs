//! The cache invalidator: decides, on every configuration mutation, whether
//! the cached play-mode audio artifact must be deleted.

use vstd::prelude::*;
use crate::config::TtsConfig;
use crate::config::mutation_invalidates;
use crate::slot::Slot;
use crate::slot::spec_audio_file_path;

verus! {

/// The single invalidation operation: while play mode is active it names the
/// play-mode slot's file for deletion, otherwise nothing. The caller removes
/// the named file if it exists; deleting an absent file is harmless, so the
/// operation is idempotent.
pub fn invalidate_play_mode_if_active(config: &TtsConfig) -> (r: Option<String>)
    ensures
        config.play_mode <==> r is Some,
        r matches Some(path) ==> path@ == spec_audio_file_path("play_mode_audio"@),
{
    if config.play_mode {
        Some(Slot::PlayMode.file_path())
    } else {
        None
    }
}

/// After any mutator of the values that produced the cached play-mode audio
/// (voice, pitch, rate, volume, or the text without the skip) runs while play
/// mode is active, the invalidation directive is issued and it targets the
/// play-mode slot's file: the cached artifact does not survive the mutation
/// unless a later step of the same operation regenerates it.
pub proof fn lemma_mutation_invalidates_play_mode_cache(config: TtsConfig)
    ensures
        mutation_invalidates(config) <==> config.play_mode,
{
}

} // verus!

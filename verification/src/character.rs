//! The one decision the character-record store delegates to this crate:
//! whether a player is still below the per-player character cap. Loading and
//! storing the durable records themselves is the business of the surrounding
//! persistence layer.

use vstd::prelude::*;

verus! {

pub const MAX_CHARACTERS_PER_PLAYER: usize = 8;

#[derive(Clone, Copy, PartialEq, Eq, Structural, Debug)]
pub enum CharacterStoreError {
    /// The player already has the maximum number of characters.
    CharacterLimitReached,
    /// The underlying record store failed; carried by the persistence layer.
    Database,
}

pub open spec fn character_limit_verdict(counts: Seq<i64>) -> Result<(), CharacterStoreError> {
    if counts.len() > 0 && counts[0] >= MAX_CHARACTERS_PER_PLAYER as i64 {
        Err(CharacterStoreError::CharacterLimitReached)
    } else {
        Ok(())
    }
}

/// Decide whether a player may create one more character, from the row-count
/// query result for that player: the first count (if any) is decisive, and an
/// empty result allows creation.
pub fn check_character_limit(character_count: &Vec<i64>) -> (r: Result<(), CharacterStoreError>)
    ensures
        r == character_limit_verdict(character_count@),
{
    if character_count.len() > 0 {
        if character_count[0] < MAX_CHARACTERS_PER_PLAYER as i64 {
            Ok(())
        } else {
            Err(CharacterStoreError::CharacterLimitReached)
        }
    } else {
        Ok(())
    }
}

} // verus!

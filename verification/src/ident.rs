//! Player identifiers derived from source URLs.

use vstd::prelude::*;
use vstd::string::StringExecFns;

verus! {

/// The lower-snake-case form of a string, as the `Inflector` crate computes
/// it. The exact character-level transform is involved, so it is left as a
/// named function of the input alone: the same string always yields the same
/// result.
pub uninterp spec fn snake_of(s: Seq<char>) -> Seq<char>;

/// The identifier a player derives from its source URL: the fixed prefix
/// `"player-"` followed by the lower-snake-case form of the URL.
pub open spec fn id_of(url: Seq<char>) -> Seq<char> {
    "player-"@ + snake_of(url)
}

/// Relies on `inflector::cases::snakecase::to_snake_case`: a pure string
/// transform whose result depends on the input characters alone.
#[verifier::external_body]
fn snake_case(s: &str) -> (r: String)
    ensures
        r@ == snake_of(s@),
{
    inflector::cases::snakecase::to_snake_case(s)
}

/// Builds the registry identifier for the player of `url`.
pub fn player_id(url: &str) -> (r: String)
    ensures
        r@ == id_of(url@),
{
    let snake = snake_case(url);
    String::from_str("player-").concat(snake.as_str())
}

} // verus!

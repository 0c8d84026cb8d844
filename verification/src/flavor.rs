use vstd::prelude::*;

use crate::error::Error;

verus! {

/// The closed set of game variants the catalog serves files for.  Identity is
/// by tag; the numeric ids used on the wire are translated by the classifier
/// below.
#[derive(Clone, Copy, Debug, PartialEq, Eq, Structural)]
pub enum GameFlavor {
    Retail,
    ClassicEra,
    ClassicTbc,
    ClassicWotlk,
}

/// The fixed lookup table from a wire game-variant-type id to a flavor.
/// Ids outside the table have no flavor.
pub open spec fn spec_flavor_of_id(id: int) -> Option<GameFlavor> {
    if id == 517 {
        Some(GameFlavor::Retail)
    } else if id == 67408 {
        Some(GameFlavor::ClassicEra)
    } else if id == 73246 {
        Some(GameFlavor::ClassicTbc)
    } else if id == 73713 {
        Some(GameFlavor::ClassicWotlk)
    } else {
        None
    }
}

/// Flavor classifier.  The catalog is integrated for a single game whose
/// variant ids form a fixed, known set; an id outside that set signals a
/// catalog or schema change and is reported as a fatal decode error rather
/// than given a default flavor.
pub fn get_flavor_from_game_version_type_id(game_id: i64) -> (r: Result<GameFlavor, Error>)
    ensures
        r matches Ok(f) ==> spec_flavor_of_id(game_id as int) == Some(f),
        r is Err ==> r == Err::<GameFlavor, Error>(Error::Decode),
        r is Ok <==> spec_flavor_of_id(game_id as int) is Some,
{
    match game_id {
        517 => Ok(GameFlavor::Retail),
        67408 => Ok(GameFlavor::ClassicEra),
        73246 => Ok(GameFlavor::ClassicTbc),
        73713 => Ok(GameFlavor::ClassicWotlk),
        _ => Err(Error::Decode),
    }
}

} // verus!

use vstd::prelude::*;
use crate::card_lookup::{CardLookup, spec_initial_cards, spec_resolve};
use crate::protocol::CardData;

verus! {

/// The frame resolver: holds the card table and turns each decoded frame into
/// its human-readable label, then hands the frame to the domain hook.
pub struct CardProcessor {
    lookup: CardLookup,
}

impl CardProcessor {
    /// A processor over a freshly generated card table.
    pub fn new() -> (r: Self)
        ensures
            r@ == spec_initial_cards(),
    {
        CardProcessor { lookup: CardLookup::new() }
    }

    /// Resolves the frame's card identifier against the table and invokes the
    /// domain hook; returns the resolved label.
    pub fn process_card(&self, data: CardData) -> (r: String)
        ensures
            r@ == spec_resolve(self@, data.card_id),
    {
        let card_value = self.lookup.get_card_value(data.card_id);
        self.update_game_state(data, card_value.as_str());
        card_value
    }

    /// The asynchronous domain hook behind the resolver: a no-op by design;
    /// downstream game-state changes are out of this core's scope.
    fn update_game_state(&self, _data: CardData, _value: &str) {
    }
}

impl View for CardProcessor {
    type V = Map<u32, Seq<char>>;

    /// A processor is viewed as its card table.
    closed spec fn view(&self) -> Map<u32, Seq<char>> {
        self.lookup@
    }
}

} // verus!

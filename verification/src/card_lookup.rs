use vstd::prelude::*;
use std::collections::HashMap;

verus! {

broadcast use vstd::std_specs::hash::group_hash_axioms;

/// Rank characters in deck order: ace, two through nine, ten, jack, queen, king.
pub open spec fn spec_ranks() -> Seq<char> {
    seq!['A', '2', '3', '4', '5', '6', '7', '8', '9', 'T', 'J', 'Q', 'K']
}

/// Suit characters in deck order: spades, hearts, diamonds, clubs.
pub open spec fn spec_suits() -> Seq<char> {
    seq!['S', 'H', 'D', 'C']
}

/// The two-character label of a generated card identifier: its rank character
/// followed by its suit character. Identifiers follow the formula
/// `suit_index * 13 + rank_index + 1`, so ranks cycle fastest.
pub open spec fn spec_card_label(id: int) -> Seq<char>
    recommends
        1 <= id <= 52,
{
    seq![spec_ranks()[(id - 1) % 13], spec_suits()[(id - 1) / 13]]
}

/// The table as built at startup: exactly the 52 generated identifiers,
/// each mapped to its deterministic label.
pub open spec fn spec_initial_cards() -> Map<u32, Seq<char>> {
    Map::new(|id: u32| 1 <= id <= 52, |id: u32| spec_card_label(id as int))
}

/// What a lookup returns: the stored label, or the "Unknown" sentinel for an
/// identifier the table does not hold.
pub open spec fn spec_resolve(cards: Map<u32, Seq<char>>, card_id: u32) -> Seq<char> {
    if cards.contains_key(card_id) {
        cards[card_id]
    } else {
        "Unknown"@
    }
}

/// Immutable-after-construction card table with support for runtime insertion
/// of additional entries. Viewed as a map from identifier to label characters.
pub struct CardLookup {
    card_map: HashMap<u32, String>,
}

impl View for CardLookup {
    type V = Map<u32, Seq<char>>;

    closed spec fn view(&self) -> Map<u32, Seq<char>> {
        Map::new(
            |id: u32| self.card_map@.contains_key(id),
            |id: u32| self.card_map@[id]@,
        )
    }
}

/// Every generated identifier decomposes uniquely into a rank index below 13
/// and a suit index below 4.
proof fn lemma_card_id_decomposition(id: u32)
    requires
        1 <= id <= 52,
    ensures
        id - 1 == 13 * ((id - 1) / 13) + ((id - 1) % 13),
        0 <= (id - 1) % 13 < 13,
        0 <= (id - 1) / 13 < 4,
{
    vstd::arithmetic::div_mod::lemma_fundamental_div_mod(id - 1, 13);
    vstd::arithmetic::div_mod::lemma_mod_bound(id - 1, 13);
}

/// Which identifiers the construction loops have inserted once the outer
/// (rank) index stands at `i` and the inner (suit) index at `j`.
spec fn card_inserted(id: u32, i: int, j: int) -> bool {
    1 <= id <= 52 && {
        let ri = (id - 1) % 13;
        let si = (id - 1) / 13;
        ri < i || (ri == i && si < j)
    }
}

impl CardLookup {
    /// Builds the table from the fixed generation rule: 4 suits times 13
    /// ranks, identifier `suit_index * 13 + rank_index + 1`.
    pub fn new() -> (r: Self)
        ensures
            r@ == spec_initial_cards(),
    {
        let mut card_map: HashMap<u32, String> = HashMap::new();
        let mut i: usize = 0;
        while i < 13
            invariant
                i <= 13,
                forall|id: u32| card_map@.contains_key(id) <==> card_inserted(id, i as int, 0),
                forall|id: u32| #[trigger]
                    card_map@.contains_key(id) ==> card_map@[id]@ == spec_card_label(id as int),
            decreases 13 - i,
        {
            let mut j: usize = 0;
            while j < 4
                invariant
                    i < 13,
                    j <= 4,
                    forall|id: u32|
                        card_map@.contains_key(id) <==> card_inserted(id, i as int, j as int),
                    forall|id: u32| #[trigger]
                        card_map@.contains_key(id) ==> card_map@[id]@ == spec_card_label(id as int),
                decreases 4 - j,
            {
                let card_id: u32 = (j * 13 + i + 1) as u32;
                let ghost before = card_map@;
                let card_name = String::from_str(rank_str(i)).concat(suit_str(j));
                proof {
                    vstd::arithmetic::div_mod::lemma_fundamental_div_mod_converse(
                        j as int * 13 + i as int,
                        13,
                        j as int,
                        i as int,
                    );
                    assert(card_name@ =~= spec_card_label(card_id as int));
                }
                card_map.insert(card_id, card_name);
                proof {
                    assert forall|id: u32|
                        card_map@.contains_key(id) <==> card_inserted(
                            id,
                            i as int,
                            j + 1,
                        ) by {
                        assert(before.contains_key(id) <==> card_inserted(id, i as int, j as int));
                        if 1 <= id && id <= 52 {
                            lemma_card_id_decomposition(id);
                        }
                    }
                }
                j += 1;
            }
            proof {
                assert forall|id: u32|
                    card_map@.contains_key(id) <==> card_inserted(id, i + 1, 0) by {
                    assert(card_map@.contains_key(id) <==> card_inserted(id, i as int, 4));
                    if 1 <= id && id <= 52 {
                        lemma_card_id_decomposition(id);
                    }
                }
            }
            i += 1;
        }
        let r = CardLookup { card_map };
        proof {
            assert forall|id: u32| r@.contains_key(id) <==> (1 <= id <= 52) by {
                assert(card_map@.contains_key(id) <==> card_inserted(id, 13, 0));
                if 1 <= id && id <= 52 {
                    lemma_card_id_decomposition(id);
                }
            }
            assert forall|id: u32| r@.contains_key(id) implies r@[id] == spec_card_label(
                id as int,
            ) by {
                assert(card_map@.contains_key(id));
            }
            assert(r@ =~= spec_initial_cards());
        }
        r
    }

    /// Resolves an identifier to its label, or to "Unknown" when the table
    /// holds no entry for it. Never fails.
    pub fn get_card_value(&self, card_id: u32) -> (r: String)
        ensures
            r@ == spec_resolve(self@, card_id),
    {
        match self.card_map.get(&card_id) {
            Some(value) => value.clone(),
            None => String::from_str("Unknown"),
        }
    }

    /// Inserts a custom entry, overwriting any prior label for the identifier.
    pub fn add_card(&mut self, card_id: u32, value: String)
        ensures
            final(self)@ == old(self)@.insert(card_id, value@),
    {
        self.card_map.insert(card_id, value);
        proof {
            assert(self@ =~= old(self)@.insert(card_id, value@));
        }
    }
}

/// A freshly built table resolves every generated identifier (1 through 52)
/// to its rank-then-suit label, and any other identifier to "Unknown".
pub proof fn lemma_initial_resolution(card_id: u32)
    ensures
        1 <= card_id <= 52 ==> spec_resolve(spec_initial_cards(), card_id) == spec_card_label(
            card_id as int,
        ),
        !(1 <= card_id <= 52) ==> spec_resolve(spec_initial_cards(), card_id) == "Unknown"@,
{
}

/// The rank character at rank index `i`, as a one-character string.
fn rank_str(i: usize) -> (r: &'static str)
    requires
        i < 13,
    ensures
        r@.len() == 1,
        r@[0] == spec_ranks()[i as int],
{
    proof {
        reveal_strlit("A");
        reveal_strlit("2");
        reveal_strlit("3");
        reveal_strlit("4");
        reveal_strlit("5");
        reveal_strlit("6");
        reveal_strlit("7");
        reveal_strlit("8");
        reveal_strlit("9");
        reveal_strlit("T");
        reveal_strlit("J");
        reveal_strlit("Q");
        reveal_strlit("K");
    }
    match i {
        0 => "A",
        1 => "2",
        2 => "3",
        3 => "4",
        4 => "5",
        5 => "6",
        6 => "7",
        7 => "8",
        8 => "9",
        9 => "T",
        10 => "J",
        11 => "Q",
        _ => "K",
    }
}

/// The suit character at suit index `j`, as a one-character string.
fn suit_str(j: usize) -> (r: &'static str)
    requires
        j < 4,
    ensures
        r@.len() == 1,
        r@[0] == spec_suits()[j as int],
{
    proof {
        reveal_strlit("S");
        reveal_strlit("H");
        reveal_strlit("D");
        reveal_strlit("C");
    }
    match j {
        0 => "S",
        1 => "H",
        2 => "D",
        _ => "C",
    }
}

} // verus!

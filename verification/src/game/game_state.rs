use crate::game::entity::card::{card_ids, find_card, Card, CardRef, CardView};
use crate::game::entity::player::{
    lemma_occupied_after_fill, lemma_occupied_bound, occupied, PlayerView, PublicPlayerView,
};
use crate::models::game_action::GameAction;
use crate::utils::text::{find_char, first_index_of, lemma_first_index_is, same_text};
use vstd::prelude::*;
use vstd::string::{StrSliceExecFns, StringExecFns};

verus! {

/// The state of a match: the turn counter, who is red and who is blue, whether
/// the match is still going, and each player's view.
#[derive(Debug)]
pub struct GameState {
    pub rounds: u32,
    pub red_first: bool,
    pub red_player: String,
    pub blue_player: String,
    pub ongoing: bool,
    pub player_views: Vec<PlayerView>,
}

/// The state of the match as one of its players sees it.
#[derive(Debug)]
pub struct PrivateGameStateView {
    pub turn: u32,
    pub red_player: PlayerView,
    pub blue_player: PlayerView,
}

/// The state of the match as anyone may see it.
#[derive(Debug)]
pub struct PublicGameStateView {
    pub turn: u32,
    pub red_player: PublicPlayerView,
    pub blue_player: PublicPlayerView,
}

/// The zones of a player's side that a card can be summoned into.
#[derive(Debug, Clone, Copy, PartialEq, Eq, Structural)]
pub enum Zone {
    Hand,
    Creatures,
    Artifacts,
    Enchantments,
}

/// The zone that a name stands for.
pub open spec fn zone_named(name: Seq<char>) -> Option<Zone> {
    if name == "hand"@ {
        Some(Zone::Hand)
    } else if name == "creatures"@ {
        Some(Zone::Creatures)
    } else if name == "artifacts"@ {
        Some(Zone::Artifacts)
    } else if name == "enchantments"@ {
        Some(Zone::Enchantments)
    } else {
        None
    }
}

/// The number of slots of a zone.
pub open spec fn zone_slots(zone: Zone) -> int {
    match zone {
        Zone::Hand => 10,
        Zone::Creatures => 6,
        Zone::Artifacts => 3,
        Zone::Enchantments => 3,
    }
}

/// The value of a decimal digit.
pub open spec fn digit_value(c: char) -> Option<int> {
    if c == '0' {
        Some(0)
    } else if c == '1' {
        Some(1)
    } else if c == '2' {
        Some(2)
    } else if c == '3' {
        Some(3)
    } else if c == '4' {
        Some(4)
    } else if c == '5' {
        Some(5)
    } else if c == '6' {
        Some(6)
    } else if c == '7' {
        Some(7)
    } else if c == '8' {
        Some(8)
    } else if c == '9' {
        Some(9)
    } else {
        None
    }
}

/// The slot that a position names. A position is a zone name, a colon and
/// one decimal digit, the index of a slot that the zone has: `hand:4`.
pub open spec fn position_slot(position: Seq<char>) -> Option<(Zone, int)> {
    let colon = first_index_of(position, ':');
    if colon + 2 == position.len() {
        match (zone_named(position.subrange(0, colon)), digit_value(position[colon + 1])) {
            (Some(zone), Some(slot)) => if slot < zone_slots(zone) {
                Some((zone, slot))
            } else {
                None
            },
            _ => None,
        }
    } else {
        None
    }
}

/// Health after damage: never below zero.
pub open spec fn damaged(health: i32, amount: u32) -> i32 {
    if health - amount < 0 {
        0i32
    } else {
        (health - amount) as i32
    }
}

/// A player's health after healing: never above 30.
pub open spec fn healed_player(health: i32, amount: u32) -> i32 {
    if health + amount > 30 {
        30i32
    } else {
        (health + amount) as i32
    }
}

/// A card's health after healing: it has no cap but the largest number that
/// the field holds.
pub open spec fn healed_card(health: i32, amount: u32) -> i32 {
    if health + amount > i32::MAX {
        i32::MAX
    } else {
        (health + amount) as i32
    }
}

/// The identifiers of the players of a list of views, in order.
pub open spec fn player_ids(views: Seq<PlayerView>) -> Seq<Seq<char>> {
    views.map_values(|v: PlayerView| v.id@)
}

/// For each slot of a hand, the identifier of the card in it, if any.
pub open spec fn hand_ids(hand: Seq<Option<CardView>>) -> Seq<Option<Seq<char>>> {
    hand.map_values(
        |c: Option<CardView>|
            match c {
                Some(v) => Some(v.id@),
                None => None,
            },
    )
}

/// The first slot of a hand that holds the card `id`, or the number of slots
/// if none does.
pub open spec fn hand_slot_of(hand: Seq<Option<CardView>>, id: Seq<char>) -> int {
    first_index_of(hand_ids(hand), Some(id))
}

/// For each player, whether the card `id` is in their hand.
pub open spec fn holders(views: Seq<PlayerView>, id: Seq<char>) -> Seq<bool> {
    views.map_values(|v: PlayerView| hand_slot_of(v.current_hand@, id) < 10)
}

/// The first player who holds the card `id` in hand, or the number of players
/// if nobody does.
pub open spec fn card_holder(views: Seq<PlayerView>, id: Seq<char>) -> int {
    first_index_of(holders(views, id), true)
}

/// Whether `post` is `pre` with nothing changed but the hand and its counters.
pub open spec fn same_but_hand(pre: PlayerView, post: PlayerView) -> bool {
    &&& post.id == pre.id
    &&& post.mana == pre.mana
    &&& post.health == pre.health
    &&& post.board == pre.board
    &&& post.graveyard_size == pre.graveyard_size
    &&& post.graveyard == pre.graveyard
}

/// Whether `post` is `pre` with nothing changed but the board.
pub open spec fn same_but_board(pre: PlayerView, post: PlayerView) -> bool {
    &&& post.id == pre.id
    &&& post.mana == pre.mana
    &&& post.health == pre.health
    &&& post.hand_size == pre.hand_size
    &&& post.deck_size == pre.deck_size
    &&& post.current_hand == pre.current_hand
    &&& post.graveyard_size == pre.graveyard_size
    &&& post.graveyard == pre.graveyard
}

/// Whether `post` is `pre` with one player's view replaced in a way that
/// `changed` describes.
pub open spec fn one_player_changed(
    pre: Seq<PlayerView>,
    post: Seq<PlayerView>,
    player: int,
    changed: spec_fn(PlayerView, PlayerView) -> bool,
) -> bool {
    &&& post.len() == pre.len()
    &&& forall|q: int| 0 <= q < pre.len() && q != player ==> post[q] == pre[q]
    &&& changed(pre[player], post[player])
}

/// Whether `post` is `pre` with the health of the card in hand slot `slot`
/// set to `health`.
pub open spec fn card_health_set(pre: PlayerView, post: PlayerView, slot: int, health: i32) -> bool {
    &&& same_but_hand(pre, post)
    &&& post.hand_size == pre.hand_size
    &&& post.deck_size == pre.deck_size
    &&& post.current_hand@ == pre.current_hand@.update(
        slot,
        Some(CardView { health, ..pre.current_hand@[slot].unwrap() }),
    )
}

/// Whether `view` is the instance of `card` that a summon into the hand
/// position `position` makes for `owner`.
pub open spec fn is_summoned_view(view: CardView, card: Card, owner: Seq<char>, position: Seq<char>) -> bool {
    &&& view.id@ == card.id@
    &&& view.name@ == card.name@
    &&& view.attack == card.attack
    &&& view.health == card.health
    &&& view.play_cost == card.play_cost
    &&& view.owner_id@ == owner
    &&& view.effects@.len() == 0
    &&& view.position matches Some(p) && p@ == position
    &&& !view.in_deck
    &&& view.in_hand
    &&& !view.in_board
    &&& !view.in_graveyard
    &&& !view.is_exhausted
}

/// Whether `post` is `pre` with a new instance of `card` in the free hand
/// slot `slot`: one more card in hand, one less in the deck if it had any.
pub open spec fn summoned_to_hand(
    pre: PlayerView,
    post: PlayerView,
    slot: int,
    card: Card,
    owner: Seq<char>,
    position: Seq<char>,
) -> bool {
    &&& same_but_hand(pre, post)
    &&& post.hand_size == pre.hand_size + 1
    &&& post.deck_size == if pre.deck_size > 0 {
        pre.deck_size - 1
    } else {
        0
    }
    &&& forall|s: int| 0 <= s < 10 && s != slot ==> post.current_hand@[s] == pre.current_hand@[s]
    &&& post.current_hand@[slot] matches Some(view) && is_summoned_view(
        view,
        card,
        owner,
        position,
    )
}

/// Whether `post` is `pre` with a reference to one copy of `card` in the free
/// slot `slot`.
pub open spec fn slot_filled(
    pre: Seq<Option<CardRef>>,
    post: Seq<Option<CardRef>>,
    slot: int,
    card: Card,
) -> bool {
    &&& post.len() == pre.len()
    &&& forall|s: int| 0 <= s < pre.len() && s != slot ==> post[s] == pre[s]
    &&& post[slot] matches Some(r) && r.id@ == card.id@ && r.amount == 1
}

/// Whether `post` is `pre` with a reference to one copy of `card` in the free
/// slot `slot` of the board zone `zone`.
pub open spec fn summoned_to_board(
    pre: PlayerView,
    post: PlayerView,
    zone: Zone,
    slot: int,
    card: Card,
) -> bool {
    &&& same_but_board(pre, post)
    &&& match zone {
        Zone::Hand => false,
        Zone::Creatures => {
            &&& slot_filled(pre.board.creatures@, post.board.creatures@, slot, card)
            &&& post.board.artifacts == pre.board.artifacts
            &&& post.board.enchantments == pre.board.enchantments
        },
        Zone::Artifacts => {
            &&& slot_filled(pre.board.artifacts@, post.board.artifacts@, slot, card)
            &&& post.board.creatures == pre.board.creatures
            &&& post.board.enchantments == pre.board.enchantments
        },
        Zone::Enchantments => {
            &&& slot_filled(pre.board.enchantments@, post.board.enchantments@, slot, card)
            &&& post.board.creatures == pre.board.creatures
            &&& post.board.artifacts == pre.board.artifacts
        },
    }
}

/// Whether the slot `slot` of `zone` is free on a player's side.
pub open spec fn slot_is_free(view: PlayerView, zone: Zone, slot: int) -> bool {
    match zone {
        Zone::Hand => view.current_hand@[slot] is None,
        Zone::Creatures => view.board.creatures@[slot] is None,
        Zone::Artifacts => view.board.artifacts@[slot] is None,
        Zone::Enchantments => view.board.enchantments@[slot] is None,
    }
}

/// What a change of health does to the views. The target is looked for among
/// the players first, then among the cards in the players' hands; a target
/// that is neither changes nothing.
pub open spec fn health_changed(
    pre: Seq<PlayerView>,
    post: Seq<PlayerView>,
    target: Seq<char>,
    amount: u32,
    damage: bool,
) -> bool {
    let p = first_index_of(player_ids(pre), target);
    let q = card_holder(pre, target);
    if p < pre.len() {
        post == pre.update(
            p,
            PlayerView {
                health: if damage {
                    damaged(pre[p].health, amount)
                } else {
                    healed_player(pre[p].health, amount)
                },
                ..pre[p]
            },
        )
    } else if q < pre.len() {
        let slot = hand_slot_of(pre[q].current_hand@, target);
        let health = pre[q].current_hand@[slot].unwrap().health;
        one_player_changed(
            pre,
            post,
            q,
            |a: PlayerView, b: PlayerView|
                card_health_set(
                    a,
                    b,
                    slot,
                    if damage {
                        damaged(health, amount)
                    } else {
                        healed_card(health, amount)
                    },
                ),
        )
    } else {
        post == pre
    }
}

/// What a summon does to the views. The card must be in the catalog, the
/// owner among the players, and the position must name a free slot;
/// otherwise nothing changes.
pub open spec fn summoned(
    pre: Seq<PlayerView>,
    post: Seq<PlayerView>,
    id: Seq<char>,
    position: Seq<char>,
    owner: Seq<char>,
    catalog: Seq<Card>,
) -> bool {
    let o = first_index_of(player_ids(pre), owner);
    let c = first_index_of(card_ids(catalog), id);
    match position_slot(position) {
        Some((zone, slot)) => if o < pre.len() && c < catalog.len() && slot_is_free(
            pre[o],
            zone,
            slot,
        ) {
            one_player_changed(
                pre,
                post,
                o,
                |a: PlayerView, b: PlayerView|
                    if zone == Zone::Hand {
                        summoned_to_hand(a, b, slot, catalog[c], owner, position)
                    } else {
                        summoned_to_board(a, b, zone, slot, catalog[c])
                    },
            )
        } else {
            post == pre
        },
        None => post == pre,
    }
}

/// Whether `post` is the state that `action` makes of `pre`, when it is
/// carried out for the player `owner` with the card catalog `catalog`.
pub open spec fn action_applied(
    pre: GameState,
    post: GameState,
    action: GameAction,
    owner: Seq<char>,
    catalog: Seq<Card>,
) -> bool {
    &&& post.rounds == pre.rounds
    &&& post.red_first == pre.red_first
    &&& post.red_player == pre.red_player
    &&& post.blue_player == pre.blue_player
    &&& post.ongoing == pre.ongoing
    &&& match action {
        GameAction::DealDamage { target, amount } => health_changed(
            pre.player_views@,
            post.player_views@,
            target@,
            amount,
            true,
        ),
        GameAction::Heal { target, amount } => health_changed(
            pre.player_views@,
            post.player_views@,
            target@,
            amount,
            false,
        ),
        GameAction::Summon { id, position } => summoned(
            pre.player_views@,
            post.player_views@,
            id@,
            position@,
            owner,
            catalog,
        ),
    }
}

/// Whether `states` are the states that a list of actions goes through, one
/// action after the other, each applied to what the one before it left.
pub open spec fn actions_applied(
    states: Seq<GameState>,
    actions: Seq<GameAction>,
    owner: Seq<char>,
    catalog: Seq<Card>,
) -> bool {
    &&& states.len() == actions.len() + 1
    &&& forall|i: int|
        0 <= i < actions.len() ==> action_applied(
            #[trigger] states[i],
            states[i + 1],
            actions[i],
            owner,
            catalog,
        )
}

/// The four bytes of a 32-bit number, most significant first.
pub open spec fn be32(x: u32) -> Seq<u8> {
    seq![
        (x / 0x100_0000) as u8,
        ((x / 0x1_0000) % 256) as u8,
        ((x / 0x100) % 256) as u8,
        (x % 256) as u8,
    ]
}

/// The unsigned reading of a signed 32-bit pattern (two's complement).
pub open spec fn unsigned32(x: i32) -> u32 {
    if x >= 0 {
        x as u32
    } else {
        (x + 0x1_0000_0000) as u32
    }
}

/// A size as a 32-bit number; one that does not fit becomes the largest.
pub open spec fn saturated32(n: usize) -> u32 {
    if n > u32::MAX {
        u32::MAX
    } else {
        n as u32
    }
}

/// A flag as a byte: 1 for true, 0 for false.
pub open spec fn flag_byte(flag: bool) -> u8 {
    if flag {
        1u8
    } else {
        0u8
    }
}

/// The first ten bytes of a broadcast: the round, who plays first, whether
/// the match is going, and the number of players.
pub open spec fn head_bytes(state: GameState) -> Seq<u8> {
    (Seq::<u8>::empty() + be32(state.rounds)).push(flag_byte(state.red_first)).push(
        flag_byte(state.ongoing),
    ) + be32(saturated32(state.player_views.len()))
}

/// `bytes` followed by the twenty bytes that stand for a player in a
/// broadcast: health, mana, and the sizes of hand, deck and graveyard.
pub open spec fn with_player(bytes: Seq<u8>, view: PlayerView) -> Seq<u8> {
    bytes + be32(unsigned32(view.health)) + be32(unsigned32(view.mana)) + be32(
        saturated32(view.hand_size),
    ) + be32(saturated32(view.deck_size)) + be32(saturated32(view.graveyard_size))
}

/// `bytes` followed by the bytes of each of the players, in order.
pub open spec fn with_players(bytes: Seq<u8>, views: Seq<PlayerView>) -> Seq<u8>
    decreases views.len(),
{
    if views.len() == 0 {
        bytes
    } else {
        with_player(with_players(bytes, views.drop_last()), views.last())
    }
}

/// The bytes that a broadcast of the state carries: the head, then the
/// players.
pub open spec fn state_bytes(state: GameState) -> Seq<u8> {
    with_players(head_bytes(state), state.player_views@)
}

fn push_be32(bytes: &mut Vec<u8>, x: u32)
    ensures
        final(bytes)@ == old(bytes)@ + be32(x),
{
    bytes.push((x / 0x100_0000) as u8);
    bytes.push(((x / 0x1_0000) % 256) as u8);
    bytes.push(((x / 0x100) % 256) as u8);
    bytes.push((x % 256) as u8);
    proof {
        assert(bytes@ =~= old(bytes)@ + be32(x));
    }
}

fn push_player(bytes: &mut Vec<u8>, view: &PlayerView)
    ensures
        final(bytes)@ == with_player(old(bytes)@, *view),
{
    push_be32(bytes, to_unsigned32(view.health));
    push_be32(bytes, to_unsigned32(view.mana));
    push_be32(bytes, saturate32(view.hand_size));
    push_be32(bytes, saturate32(view.deck_size));
    push_be32(bytes, saturate32(view.graveyard_size));
}

fn to_unsigned32(x: i32) -> (r: u32)
    ensures
        r == unsigned32(x),
{
    if x >= 0 {
        x as u32
    } else {
        ((x - i32::MIN) as u32) + 0x8000_0000
    }
}

fn saturate32(n: usize) -> (r: u32)
    ensures
        r == saturated32(n),
{
    if n > u32::MAX as usize {
        u32::MAX
    } else {
        n as u32
    }
}

/// Finds the first player with the given identifier.
pub fn find_player(views: &Vec<PlayerView>, id: &String) -> (found: Option<usize>)
    ensures
        match found {
            Some(i) => i < views@.len() && i == first_index_of(player_ids(views@), id@),
            None => first_index_of(player_ids(views@), id@) == views@.len(),
        },
{
    let mut i: usize = 0;
    while i < views.len()
        invariant
            0 <= i <= views@.len(),
            forall|j: int| 0 <= j < i ==> player_ids(views@)[j] != id@,
        decreases views@.len() - i,
    {
        if views[i].id == *id {
            proof {
                lemma_first_index_is(player_ids(views@), id@, i as int);
            }
            return Some(i);
        }
        i = i + 1;
    }
    proof {
        lemma_first_index_is(player_ids(views@), id@, i as int);
    }
    None
}

/// Finds the first slot of a hand that holds the card `id`.
pub fn find_in_hand(hand: &[Option<CardView>; 10], id: &String) -> (found: Option<usize>)
    ensures
        match found {
            Some(s) => s < 10 && s == hand_slot_of(hand@, id@) && hand@[s as int] is Some,
            None => hand_slot_of(hand@, id@) == 10,
        },
{
    let mut s: usize = 0;
    while s < 10
        invariant
            0 <= s <= 10,
            hand@.len() == 10,
            forall|j: int| 0 <= j < s ==> hand_ids(hand@)[j] != Some(id@),
        decreases 10 - s,
    {
        let here = match &hand[s] {
            Some(card) => card.id == *id,
            None => false,
        };
        if here {
            proof {
                lemma_first_index_is(hand_ids(hand@), Some(id@), s as int);
            }
            return Some(s);
        }
        s = s + 1;
    }
    proof {
        lemma_first_index_is(hand_ids(hand@), Some(id@), s as int);
    }
    None
}

/// Finds the first player who holds the card `id` in hand, and the slot.
pub fn find_holder(views: &Vec<PlayerView>, id: &String) -> (found: Option<(usize, usize)>)
    ensures
        match found {
            Some((q, s)) => q < views@.len() && q == card_holder(views@, id@) && s < 10 && s
                == hand_slot_of(views@[q as int].current_hand@, id@)
                && views@[q as int].current_hand@[s as int] is Some,
            None => card_holder(views@, id@) == views@.len(),
        },
{
    let mut q: usize = 0;
    while q < views.len()
        invariant
            0 <= q <= views@.len(),
            forall|j: int| 0 <= j < q ==> !holders(views@, id@)[j],
        decreases views@.len() - q,
    {
        match find_in_hand(&views[q].current_hand, id) {
            Some(s) => {
                proof {
                    lemma_first_index_is(holders(views@, id@), true, q as int);
                }
                return Some((q, s));
            },
            None => {},
        }
        q = q + 1;
    }
    proof {
        lemma_first_index_is(holders(views@, id@), true, q as int);
    }
    None
}

/// Reads a decimal digit.
pub fn digit_of(c: char) -> (d: Option<usize>)
    ensures
        match d {
            Some(v) => digit_value(c) == Some(v as int),
            None => digit_value(c) is None,
        },
{
    match c {
        '0' => Some(0),
        '1' => Some(1),
        '2' => Some(2),
        '3' => Some(3),
        '4' => Some(4),
        '5' => Some(5),
        '6' => Some(6),
        '7' => Some(7),
        '8' => Some(8),
        '9' => Some(9),
        _ => None,
    }
}

/// Reads a zone name.
pub fn zone_of(name: &str) -> (zone: Option<Zone>)
    ensures
        zone == zone_named(name@),
{
    if same_text(name, "hand") {
        Some(Zone::Hand)
    } else if same_text(name, "creatures") {
        Some(Zone::Creatures)
    } else if same_text(name, "artifacts") {
        Some(Zone::Artifacts)
    } else if same_text(name, "enchantments") {
        Some(Zone::Enchantments)
    } else {
        None
    }
}

/// Reads a position: a zone name, a colon and the one-digit index of a slot
/// of that zone.
pub fn parse_position(position: &str) -> (slot: Option<(Zone, usize)>)
    ensures
        match slot {
            Some((zone, s)) => position_slot(position@) == Some((zone, s as int)) && s
                < zone_slots(zone),
            None => position_slot(position@) is None,
        },
{
    let n = position.unicode_len();
    let colon = find_char(position, ':');
    if n < 2 || colon != n - 2 {
        return None;
    }
    let zone = zone_of(position.substring_char(0, colon));
    let digit = digit_of(position.get_char(colon + 1));
    match (zone, digit) {
        (Some(zone), Some(s)) => {
            let slots: usize = match zone {
                Zone::Hand => 10,
                Zone::Creatures => 6,
                Zone::Artifacts => 3,
                Zone::Enchantments => 3,
            };
            if s < slots {
                Some((zone, s))
            } else {
                None
            }
        },
        _ => None,
    }
}

fn damage(health: i32, amount: u32) -> (left: i32)
    ensures
        left == damaged(health, amount),
{
    let after: i64 = (health as i64) - (amount as i64);
    if after < 0 {
        0
    } else {
        after as i32
    }
}

fn heal(health: i32, amount: u32, cap: i32) -> (now: i32)
    ensures
        now == if health + amount > cap {
            cap
        } else {
            (health + amount) as i32
        },
{
    let after: i64 = (health as i64) + (amount as i64);
    if after > cap as i64 {
        cap
    } else {
        after as i32
    }
}

fn place_ref<const N: usize>(slots: &mut [Option<CardRef>; N], slot: usize, card: &Card)
    requires
        slot < N,
    ensures
        slot_filled(old(slots)@, final(slots)@, slot as int, *card),
{
    slots[slot] = Some(CardRef { id: card.id.clone(), amount: 1 });
}

impl PlayerView {
    /// Tells whether a slot of one of the player's zones is free.
    pub fn has_free_slot(&self, zone: Zone, slot: usize) -> (free: bool)
        requires
            slot < zone_slots(zone),
        ensures
            free == slot_is_free(*self, zone, slot as int),
    {
        match zone {
            Zone::Hand => self.current_hand[slot].is_none(),
            Zone::Creatures => self.board.creatures[slot].is_none(),
            Zone::Artifacts => self.board.artifacts[slot].is_none(),
            Zone::Enchantments => self.board.enchantments[slot].is_none(),
        }
    }

    /// Sets the health of the card in a hand slot.
    fn set_card_health(&mut self, slot: usize, amount: u32, is_damage: bool)
        requires
            slot < 10,
            old(self).current_hand@[slot as int] is Some,
            old(self).wf(),
        ensures
            final(self).wf(),
            card_health_set(
                *old(self),
                *final(self),
                slot as int,
                if is_damage {
                    damaged(old(self).current_hand@[slot as int].unwrap().health, amount)
                } else {
                    healed_card(old(self).current_hand@[slot as int].unwrap().health, amount)
                },
            ),
    {
        match &mut self.current_hand[slot] {
            Some(card) => {
                card.health = if is_damage {
                    damage(card.health, amount)
                } else {
                    heal(card.health, amount, i32::MAX)
                };
            },
            None => {},
        }
        proof {
            lemma_occupied_same_shape(old(self).current_hand@, self.current_hand@);
        }
    }

    /// Puts a new instance of `card` into a free slot of a zone.
    fn summon(&mut self, zone: Zone, slot: usize, card: &Card, position: &str)
        requires
            slot < zone_slots(zone),
            slot_is_free(*old(self), zone, slot as int),
            old(self).wf(),
        ensures
            final(self).wf(),
            zone == Zone::Hand ==> summoned_to_hand(
                *old(self),
                *final(self),
                slot as int,
                *card,
                old(self).id@,
                position@,
            ),
            zone != Zone::Hand ==> summoned_to_board(
                *old(self),
                *final(self),
                zone,
                slot as int,
                *card,
            ),
    {
        match zone {
            Zone::Hand => {
                let mut view = CardView::create_view(card, self.id.clone());
                view.in_hand = true;
                view.position = Some(String::from_str(position));
                proof {
                    lemma_occupied_bound(self.current_hand@);
                    lemma_occupied_after_fill(self.current_hand@, slot as int, view);
                }
                self.current_hand[slot] = Some(view);
                self.hand_size = self.hand_size + 1;
                if self.deck_size > 0 {
                    self.deck_size = self.deck_size - 1;
                }
            },
            Zone::Creatures => {
                place_ref(&mut self.board.creatures, slot, card);
            },
            Zone::Artifacts => {
                place_ref(&mut self.board.artifacts, slot, card);
            },
            Zone::Enchantments => {
                place_ref(&mut self.board.enchantments, slot, card);
            },
        }
    }
}

/// Two hands with cards in the same slots have as many occupied slots.
pub proof fn lemma_occupied_same_shape(a: Seq<Option<CardView>>, b: Seq<Option<CardView>>)
    requires
        a.len() == b.len(),
        forall|i: int| 0 <= i < a.len() ==> (a[i] is Some <==> b[i] is Some),
    ensures
        occupied(a) == occupied(b),
    decreases a.len(),
{
    if a.len() > 0 {
        lemma_occupied_same_shape(a.drop_last(), b.drop_last());
    }
}

impl GameState {
    /// A state is well formed when each of its player views is.
    pub open spec fn wf(self) -> bool {
        forall|i: int| 0 <= i < self.player_views@.len() ==> self.player_views@[i].wf()
    }

    /// Tells whether the state is well formed.
    pub fn check(&self) -> (ok: bool)
        ensures
            ok == self.wf(),
    {
        let mut i: usize = 0;
        while i < self.player_views.len()
            invariant
                0 <= i <= self.player_views@.len(),
                forall|j: int| 0 <= j < i ==> self.player_views@[j].wf(),
            decreases self.player_views@.len() - i,
        {
            if !self.player_views[i].check() {
                return false;
            }
            i = i + 1;
        }
        true
    }

    /// The state at the start of a match: round 0, red to play first, the
    /// match going. The first view is red's and the second blue's; a side
    /// without a view has the empty identifier.
    pub fn new_game(player_views: Vec<PlayerView>) -> (state: GameState)
        ensures
            state.rounds == 0,
            state.red_first,
            state.ongoing,
            state.player_views == player_views,
            state.red_player@ == if player_views@.len() > 0 {
                player_views@[0].id@
            } else {
                Seq::<char>::empty()
            },
            state.blue_player@ == if player_views@.len() > 1 {
                player_views@[1].id@
            } else {
                Seq::<char>::empty()
            },
    {
        let red_player = if player_views.len() > 0 {
            player_views[0].id.clone()
        } else {
            String::new()
        };
        let blue_player = if player_views.len() > 1 {
            player_views[1].id.clone()
        } else {
            String::new()
        };
        GameState {
            rounds: 0,
            red_first: true,
            red_player,
            blue_player,
            ongoing: true,
            player_views,
        }
    }

    /// The player whose turn it is: red and blue alternate round by round,
    /// and `red_first` says who has the even rounds.
    pub open spec fn turn_owner(self) -> Seq<char> {
        if (self.rounds % 2 == 0) == self.red_first {
            self.red_player@
        } else {
            self.blue_player@
        }
    }

    /// Tells whether it is the turn of the player `player_id`.
    pub fn is_turn_of(&self, player_id: &String) -> (yes: bool)
        ensures
            yes == (self.turn_owner() == player_id@),
    {
        if (self.rounds % 2 == 0) == self.red_first {
            self.red_player == *player_id
        } else {
            self.blue_player == *player_id
        }
    }

    /// Wraps the state into the bytes that a broadcast carries: what anyone
    /// may see of it, in fixed-width big-endian fields. First the round, who
    /// plays first, whether the match is going and the number of players;
    /// then, for each player in order, health, mana and the sizes of hand,
    /// deck and graveyard.
    pub fn wrap_game_state(&self) -> (bytes: Vec<u8>)
        ensures
            bytes@ == state_bytes(*self),
    {
        let mut bytes: Vec<u8> = Vec::new();
        push_be32(&mut bytes, self.rounds);
        bytes.push(if self.red_first { 1 } else { 0 });
        bytes.push(if self.ongoing { 1 } else { 0 });
        push_be32(&mut bytes, saturate32(self.player_views.len()));
        let mut i: usize = 0;
        while i < self.player_views.len()
            invariant
                0 <= i <= self.player_views@.len(),
                bytes@ == with_players(head_bytes(*self), self.player_views@.subrange(0, i as int)),
            decreases self.player_views@.len() - i,
        {
            push_player(&mut bytes, &self.player_views[i]);
            proof {
                let next = self.player_views@.subrange(0, i + 1);
                assert(next.drop_last() =~= self.player_views@.subrange(0, i as int));
                assert(next.last() == self.player_views@[i as int]);
            }
            i = i + 1;
        }
        proof {
            assert(self.player_views@.subrange(0, i as int) =~= self.player_views@);
        }
        bytes
    }

    /// Carries out one action for the player `owner_id`.
    ///
    /// Damage and healing look for their target among the players first, then
    /// among the cards in the players' hands. A summon puts a card of the
    /// catalog into the slot that its position names on the owner's side, if
    /// that slot is free. An action that cannot be carried out changes
    /// nothing.
    pub fn apply_action(&mut self, action: &GameAction, owner_id: &String, catalog: &Vec<Card>)
        requires
            old(self).wf(),
        ensures
            final(self).wf(),
            action_applied(*old(self), *final(self), *action, owner_id@, catalog@),
    {
        match action {
            GameAction::DealDamage { target, amount } => {
                self.change_health(target, *amount, true);
            },
            GameAction::Heal { target, amount } => {
                self.change_health(target, *amount, false);
            },
            GameAction::Summon { id, position } => {
                let slot = parse_position(position.as_str());
                let owner = find_player(&self.player_views, owner_id);
                let card = find_card(catalog, id);
                match (slot, owner, card) {
                    (Some((zone, s)), Some(o), Some(c)) => {
                        if self.player_views[o].has_free_slot(zone, s) {
                            self.player_views[o].summon(zone, s, &catalog[c], position.as_str());
                            proof {
                                assert(player_ids(old(self).player_views@)[o as int] == owner_id@)
                                    by {
                                    crate::utils::text::lemma_first_index_of(
                                        player_ids(old(self).player_views@),
                                        owner_id@,
                                    );
                                }
                            }
                        }
                    },
                    _ => {},
                }
            },
        }
    }

    fn change_health(&mut self, target: &String, amount: u32, is_damage: bool)
        requires
            old(self).wf(),
        ensures
            final(self).wf(),
            final(self).rounds == old(self).rounds,
            final(self).red_first == old(self).red_first,
            final(self).red_player == old(self).red_player,
            final(self).blue_player == old(self).blue_player,
            final(self).ongoing == old(self).ongoing,
            health_changed(
                old(self).player_views@,
                final(self).player_views@,
                target@,
                amount,
                is_damage,
            ),
    {
        match find_player(&self.player_views, target) {
            Some(p) => {
                let health = self.player_views[p].health;
                self.player_views[p].health = if is_damage {
                    damage(health, amount)
                } else {
                    heal(health, amount, 30)
                };
                proof {
                    let pre = old(self).player_views@;
                    assert(self.player_views@ =~= pre.update(
                        p as int,
                        PlayerView { health: self.player_views@[p as int].health, ..pre[p as int] },
                    ));
                }
            },
            None => {
                match find_holder(&self.player_views, target) {
                    Some((q, s)) => {
                        self.player_views[q].set_card_health(s, amount, is_damage);
                    },
                    None => {},
                }
            },
        }
    }

    /// Carries out a list of actions for the player `owner_id`, in order.
    /// Each action works on what the one before it left; one that cannot be
    /// carried out changes nothing and does not stop the rest.
    pub fn apply_actions(&mut self, actions: Vec<GameAction>, owner_id: &String, catalog: &Vec<Card>)
        requires
            old(self).wf(),
        ensures
            final(self).wf(),
            exists|states: Seq<GameState>|
                {
                    &&& actions_applied(states, actions@, owner_id@, catalog@)
                    &&& states[0] == *old(self)
                    &&& states[actions@.len() as int] == *final(self)
                },
    {
        let ghost mut states: Seq<GameState> = seq![*self];
        let mut i: usize = 0;
        while i < actions.len()
            invariant
                0 <= i <= actions@.len(),
                self.wf(),
                states.len() == i + 1,
                states[0] == *old(self),
                states[i as int] == *self,
                forall|k: int|
                    0 <= k < i ==> action_applied(
                        #[trigger] states[k],
                        states[k + 1],
                        actions@[k],
                        owner_id@,
                        catalog@,
                    ),
            decreases actions@.len() - i,
        {
            self.apply_action(&actions[i], owner_id, catalog);
            proof {
                states = states.push(*self);
            }
            i = i + 1;
        }
        proof {
            assert(actions_applied(states, actions@, owner_id@, catalog@));
        }
    }
}

} // verus!

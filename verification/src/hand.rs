//! A hand: the cards of the player or of the dealer, their total under the
//! ace rule, and whether the hand stands or is bust.

use crate::cards::{Card, CardType};
use crate::deck::{after_draw, next_card, Deck};
use vstd::prelude::*;

verus! {

/// The number of cards at which a hand is made to stand.
pub const MAX_HAND: usize = 10;

/// The total from which the dealer takes no more cards.
pub const MAX_DEALER_HAND_VALUE: u8 = 17;

/// The highest total that is not bust.
pub const BLACKJACK: u8 = 21;

/// Whether an ace that comes to a hand of total `prior` counts eleven. For the
/// player it does if the hand is then not bust. For the dealer it does only if
/// the new total is at least seventeen and below twenty-one.
pub open spec fn counts_high(prior: int, dealer: bool) -> bool {
    if dealer {
        17 <= prior + 11 < 21
    } else {
        prior + 11 <= 21
    }
}

/// The points by which a card of the given rank raises a hand of total
/// `prior`.
pub open spec fn card_points(prior: int, rank: CardType, dealer: bool) -> int {
    rank.points(counts_high(prior, dealer))
}

/// The total of a hand that got the cards in this order. Each ace was counted
/// high or low when it came, against the total before it, and stays so.
pub open spec fn hand_total(cards: Seq<Card>, dealer: bool) -> int
    decreases cards.len(),
{
    if cards.len() == 0 {
        0
    } else {
        let prior = hand_total(cards.drop_last(), dealer);
        prior + card_points(prior, cards.last().value, dealer)
    }
}

/// The sum of the points of the cards, every ace counted low.
pub open spec fn base_sum(cards: Seq<Card>) -> int
    decreases cards.len(),
{
    if cards.len() == 0 {
        0
    } else {
        base_sum(cards.drop_last()) + cards.last().value.points(false)
    }
}

/// What a hand is: its cards in the order in which they came, whose hand it
/// is, and whether it stands. The total and the bust flag follow from these.
pub struct HandView {
    pub cards: Seq<Card>,
    pub dealer: bool,
    pub standing: bool,
}

impl HandView {
    /// The hand that holds nothing yet.
    pub open spec fn fresh(dealer: bool) -> HandView {
        HandView { cards: Seq::<Card>::empty(), dealer: dealer, standing: false }
    }

    pub open spec fn total(self) -> int {
        hand_total(self.cards, self.dealer)
    }

    pub open spec fn bust(self) -> bool {
        self.total() > 21
    }

    /// A hand that stands or is bust takes no more cards.
    pub open spec fn terminal(self) -> bool {
        self.standing || self.bust()
    }

    /// Two cards that make twenty-one.
    pub open spec fn blackjack(self) -> bool {
        self.cards.len() == 2 && self.total() == 21
    }

    /// Two cards of the same rank, whatever their suits.
    pub open spec fn splittable(self) -> bool {
        self.cards.len() == 2 && self.cards[0].value == self.cards[1].value
    }

    /// A hand never holds more than `MAX_HAND` cards, and one that holds so
    /// many stands.
    pub open spec fn wf(self) -> bool {
        &&& self.cards.len() <= MAX_HAND
        &&& self.cards.len() == MAX_HAND ==> self.standing
    }

    /// The hand after it got one more card.
    pub open spec fn add(self, card: Card) -> HandView {
        HandView {
            cards: self.cards.push(card),
            dealer: self.dealer,
            standing: self.standing || self.cards.len() + 1 == MAX_HAND,
        }
    }

    /// The hand after it stood.
    pub open spec fn stood(self) -> HandView {
        HandView { cards: self.cards, dealer: self.dealer, standing: true }
    }

    /// The hand with the card at `index` turned face down or face up. A place
    /// that holds no card changes nothing.
    pub open spec fn turned(self, index: int, face_down: bool) -> HandView {
        if 0 <= index < self.cards.len() {
            HandView {
                cards: self.cards.update(
                    index,
                    Card {
                        color: self.cards[index].color,
                        value: self.cards[index].value,
                        face_down: face_down,
                    },
                ),
                dealer: self.dealer,
                standing: self.standing,
            }
        } else {
            self
        }
    }
}

/// The total depends on the ranks alone: two hands that hold the same ranks in
/// the same order have the same total, whatever the suits and whichever side
/// of a card is up.
pub proof fn lemma_total_by_ranks(a: Seq<Card>, b: Seq<Card>, dealer: bool)
    requires
        a.len() == b.len(),
        forall|i: int| 0 <= i < a.len() ==> a[i].value == b[i].value,
    ensures
        hand_total(a, dealer) == hand_total(b, dealer),
    decreases a.len(),
{
    if a.len() > 0 {
        lemma_total_by_ranks(a.drop_last(), b.drop_last(), dealer);
    }
}

/// Cards other than aces raise the total by exactly their points: a hand that
/// holds `cards` and then gets `more`, none of them an ace, has the total of
/// `cards` and the sum of the points of `more`.
pub proof fn lemma_total_without_aces(cards: Seq<Card>, more: Seq<Card>, dealer: bool)
    requires
        forall|i: int| 0 <= i < more.len() ==> more[i].value != CardType::Ace,
    ensures
        hand_total(cards + more, dealer) == hand_total(cards, dealer) + base_sum(more),
    decreases more.len(),
{
    if more.len() == 0 {
        assert(cards + more =~= cards);
    } else {
        lemma_total_without_aces(cards, more.drop_last(), dealer);
        assert((cards + more).drop_last() =~= cards + more.drop_last());
        assert((cards + more).last() == more.last());
    }
}

/// A card raises the total by its points: by eleven at most, and by one at
/// least unless it is the placeholder, which leaves the total as it is.
pub proof fn lemma_add_raises_total(hand: HandView, card: Card)
    ensures
        hand.add(card).total() == hand.total() + card_points(
            hand.total(),
            card.value,
            hand.dealer,
        ),
        hand.total() <= hand.add(card).total() <= hand.total() + 11,
        card.value != CardType::Empty ==> hand.total() < hand.add(card).total(),
        card.value == CardType::Empty ==> hand.total() == hand.add(card).total(),
{
    assert(hand.cards.push(card).drop_last() =~= hand.cards);
}

/// The dealer never holds a blackjack: an ace that would bring the dealer's
/// total to twenty-one counts one.
pub proof fn lemma_dealer_has_no_blackjack(hand: HandView)
    requires
        hand.dealer,
    ensures
        !hand.blackjack(),
{
    if hand.cards.len() == 2 {
        let first = hand.cards.drop_last();
        assert(hand_total(first.drop_last(), true) == 0);
        assert(hand_total(first, true) == card_points(0, first.last().value, true));
    }
}

/// A hand of the player or of the dealer.
pub struct Player {
    hand: Vec<Card>,
    hand_value: u8,
    is_standing: bool,
    is_bust: bool,
    is_dealer: bool,
}

impl View for Player {
    type V = HandView;

    closed spec fn view(&self) -> HandView {
        HandView { cards: self.hand@, dealer: self.is_dealer, standing: self.is_standing }
    }
}

impl Player {
    /// The total and the bust flag that the hand keeps are those of its
    /// cards.
    pub closed spec fn cache_agrees(&self) -> bool {
        &&& self.hand_value as int == self@.total()
        &&& self.is_bust == self@.bust()
    }

    /// What holds of every hand that this module hands out.
    pub open spec fn wf(&self) -> bool {
        &&& self@.wf()
        &&& self.cache_agrees()
    }

    /// A hand without cards, for the dealer or for the player.
    pub fn new(is_dealer: bool) -> (player: Player)
        ensures
            player.wf(),
            player@ == HandView::fresh(is_dealer),
    {
        Player {
            hand: Vec::new(),
            hand_value: 0,
            is_standing: false,
            is_bust: false,
            is_dealer,
        }
    }

    /// Whether this is the dealer's hand.
    pub fn is_dealer(&self) -> (dealer: bool)
        ensures
            dealer == self@.dealer,
    {
        self.is_dealer
    }

    /// The number of cards held.
    pub fn hand_count(&self) -> (count: usize)
        ensures
            count == self@.cards.len(),
    {
        self.hand.len()
    }

    /// The total of the hand.
    pub fn hand_value(&self) -> (value: u8)
        requires
            self.wf(),
        ensures
            value as int == self@.total(),
    {
        self.hand_value
    }

    /// Whether the hand stands.
    pub fn is_standing(&self) -> (standing: bool)
        ensures
            standing == self@.standing,
    {
        self.is_standing
    }

    /// Whether the total is above twenty-one.
    pub fn is_bust(&self) -> (bust: bool)
        requires
            self.wf(),
        ensures
            bust == self@.bust(),
    {
        self.is_bust
    }

    /// Whether the hand takes no more cards.
    pub fn is_terminal(&self) -> (terminal: bool)
        requires
            self.wf(),
        ensures
            terminal == self@.terminal(),
    {
        self.is_standing || self.is_bust
    }

    /// Whether the hand is two cards that make twenty-one.
    pub fn has_blackjack(&self) -> (blackjack: bool)
        requires
            self.wf(),
        ensures
            blackjack == self@.blackjack(),
            blackjack <==> self@.cards.len() == 2 && self@.total() == 21,
    {
        self.hand.len() == 2 && self.hand_value == BLACKJACK
    }

    /// Whether the hand is two cards of one rank. The suits do not count.
    pub fn can_split(&self) -> (splittable: bool)
        ensures
            splittable == self@.splittable(),
            splittable <==> self@.cards.len() == 2 && self@.cards[0].value == self@.cards[1].value,
    {
        self.hand.len() == 2 && self.hand[0].value == self.hand[1].value
    }

    /// The cards of the hand in the order in which they came.
    pub fn get_player_cards(&self) -> (cards: Vec<Card>)
        ensures
            cards@ == self@.cards,
    {
        let mut r: Vec<Card> = Vec::new();
        let mut i: usize = 0;
        while i < self.hand.len()
            invariant
                i <= self.hand.len(),
                r@ == self.hand@.take(i as int),
            decreases self.hand.len() - i,
        {
            r.push(self.hand[i]);
            assert(self.hand@.take(i + 1) =~= self.hand@.take(i as int).push(self.hand@[i as int]));
            i = i + 1;
        }
        assert(self.hand@.take(i as int) =~= self.hand@);
        r
    }

    /// Adds a card to a hand that neither stands nor is bust. The total rises
    /// by the card's points, an ace counted by the rule of `counts_high`; a
    /// hand that has reached `MAX_HAND` cards stands from then on.
    pub fn add_card(&mut self, card: Card)
        requires
            old(self).wf(),
            !old(self)@.terminal(),
        ensures
            final(self).wf(),
            final(self)@ == old(self)@.add(card),
            final(self)@.total() == old(self)@.total() + card_points(
                old(self)@.total(),
                card.value,
                old(self)@.dealer,
            ),
    {
        let with_ace: u8 = self.hand_value + 11;
        let high = if self.is_dealer {
            MAX_DEALER_HAND_VALUE <= with_ace && with_ace < BLACKJACK
        } else {
            with_ace <= BLACKJACK
        };
        let points = card.value.to_value(high);
        proof {
            assert(self.hand@.push(card).drop_last() =~= self.hand@);
        }
        self.hand.push(card);
        self.hand_value = self.hand_value + points;
        if self.hand.len() == MAX_HAND {
            self.is_standing = true;
        }
        if self.hand_value > BLACKJACK {
            self.is_bust = true;
        }
    }

    /// Draws the top card of the shoe into the hand.
    pub fn hit(&mut self, deck: &mut Deck)
        requires
            old(self).wf(),
            !old(self)@.terminal(),
        ensures
            final(self).wf(),
            final(self)@ == old(self)@.add(next_card(old(deck)@)),
            final(deck)@ == after_draw(old(deck)@),
    {
        let card = deck.take_card();
        self.add_card(card);
    }

    /// Ends the turn of a hand that does not stand yet.
    pub fn stand(&mut self)
        requires
            old(self).wf(),
            !old(self)@.standing,
        ensures
            final(self).wf(),
            final(self)@ == old(self)@.stood(),
    {
        self.is_standing = true;
    }

    /// Turns the card at `index` face down or face up. The total stays as it
    /// is; a place that holds no card changes nothing.
    pub fn set_face_down(&mut self, index: usize, face_down: bool)
        requires
            old(self).wf(),
        ensures
            final(self).wf(),
            final(self)@ == old(self)@.turned(index as int, face_down),
            final(self)@.total() == old(self)@.total(),
    {
        if index < self.hand.len() {
            let mut card = self.hand[index];
            card.face_down = face_down;
            proof {
                lemma_total_by_ranks(self.hand@, self.hand@.update(index as int, card), self.is_dealer);
            }
            self.hand.set(index, card);
        }
    }
}

} // verus!


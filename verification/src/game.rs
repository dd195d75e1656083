//! A round: the opening deal, the player's moves, the dealer's fixed policy
//! and who has won.

use crate::cards::Card;
use crate::deck::{after_draw, next_card, sorted_cards, Deck};
use crate::hand::{
    lemma_add_raises_total, HandView, Player, BLACKJACK, MAX_DEALER_HAND_VALUE, MAX_HAND,
};
use vstd::prelude::*;

verus! {

/// The number of decks in the shoe of a round.
pub const DECKS: u8 = 4;

/// How a round ends.
#[derive(Clone, Copy, PartialEq, Eq, Structural, Debug)]
pub enum Outcome {
    PlayerWin,
    DealerWin,
    Push,
    PlayerBlackjack,
}

impl Outcome {
    /// The sentence that tells the player how the round ended.
    pub open spec fn sentence(self) -> Seq<char> {
        match self {
            Outcome::PlayerWin => "Player won normally"@,
            Outcome::DealerWin => "Dealer won normally"@,
            Outcome::Push => "Game ended even"@,
            Outcome::PlayerBlackjack => "Black jack baby!"@,
        }
    }

    /// The sentence that tells the player how the round ended.
    pub fn message(&self) -> (text: &'static str)
        ensures
            text@ == self.sentence(),
    {
        match self {
            Outcome::PlayerWin => "Player won normally",
            Outcome::DealerWin => "Dealer won normally",
            Outcome::Push => "Game ended even",
            Outcome::PlayerBlackjack => "Black jack baby!",
        }
    }
}

/// What the player asks for.
#[derive(Clone, Copy, PartialEq, Eq, Structural, Debug)]
pub enum Command {
    Hit,
    Stand,
    Exit,
    Unknown,
}

/// What follows a move of the player.
#[derive(Clone, Copy, PartialEq, Eq, Structural, Debug)]
pub enum Turn {
    /// The player is asked again.
    Again,
    /// The player's turn is over and the dealer plays.
    Done,
    /// The player leaves the table.
    Exit,
}

/// The command that a number stands for: 1 asks for a card, 2 stands, 4
/// leaves. Every other number is no command.
pub open spec fn command_of(code: u8) -> Command {
    if code == 1 {
        Command::Hit
    } else if code == 2 {
        Command::Stand
    } else if code == 4 {
        Command::Exit
    } else {
        Command::Unknown
    }
}

/// Who has won, by the first rule that applies: a bust player loses; a
/// blackjack of the player alone wins as such; two blackjacks tie; a
/// blackjack of the dealer wins; then a bust dealer loses, and otherwise the
/// higher total wins and equal totals tie.
pub open spec fn outcome(player: HandView, dealer: HandView) -> Outcome {
    if player.bust() {
        Outcome::DealerWin
    } else if player.blackjack() && !dealer.blackjack() {
        Outcome::PlayerBlackjack
    } else if player.blackjack() && dealer.blackjack() {
        Outcome::Push
    } else if dealer.blackjack() {
        Outcome::DealerWin
    } else if dealer.bust() || player.total() > dealer.total() {
        Outcome::PlayerWin
    } else if player.total() == dealer.total() {
        Outcome::Push
    } else {
        Outcome::DealerWin
    }
}

/// Whether the dealer's policy takes another card: the total is below
/// seventeen and the hand does not stand.
pub open spec fn dealer_draws(hand: HandView) -> bool {
    &&& hand.total() < 17
    &&& !hand.standing
    &&& hand.cards.len() < MAX_HAND
}

/// The dealer's hand once the policy takes no more cards: it stands if its
/// total is seventeen to twenty-one, and is left as it is otherwise.
pub open spec fn dealer_settles(hand: HandView) -> HandView {
    if 17 <= hand.total() <= 21 {
        hand.stood()
    } else {
        hand
    }
}

/// The dealer's hand and the shoe after the dealer has played by the policy,
/// from the given hand and shoe.
pub open spec fn dealer_result(hand: HandView, deck: Seq<Card>) -> (HandView, Seq<Card>)
    decreases MAX_HAND - hand.cards.len(),
{
    if dealer_draws(hand) {
        dealer_result(hand.add(next_card(deck)), after_draw(deck))
    } else {
        (dealer_settles(hand), deck)
    }
}

/// Whether the dealer does not play at all: the player is bust, or one of the
/// two holds a blackjack.
pub open spec fn dealer_sits_out(player: HandView, dealer: HandView) -> bool {
    player.bust() || player.blackjack() || dealer.blackjack()
}

/// Whether the player is asked for a move: not with a blackjack, and not with
/// a hand that stands or is bust.
pub open spec fn player_to_move(player: HandView) -> bool {
    !player.blackjack() && !player.terminal()
}

/// What a round is: the two hands and the shoe.
pub struct GameView {
    pub player: HandView,
    pub dealer: HandView,
    pub deck: Seq<Card>,
}

impl GameView {
    /// A round before the deal, with the given shoe.
    pub open spec fn seated(deck: Seq<Card>) -> GameView {
        GameView { player: HandView::fresh(false), dealer: HandView::fresh(true), deck: deck }
    }

    /// The round after the opening deal: the player gets the first and the
    /// third card of the shoe, the dealer the second and the fourth, and the
    /// dealer's second card lies face down.
    pub open spec fn dealt(self) -> GameView {
        let first = next_card(self.deck);
        let deck1 = after_draw(self.deck);
        let second = next_card(deck1);
        let deck2 = after_draw(deck1);
        let third = next_card(deck2);
        let deck3 = after_draw(deck2);
        let fourth = next_card(deck3);
        let deck4 = after_draw(deck3);
        GameView {
            player: self.player.add(first).add(third),
            dealer: self.dealer.add(second).add(fourth).turned(1, true),
            deck: deck4,
        }
    }

    /// The round after a move of the player. A player who is not to move
    /// changes nothing, nor does a command to leave or an unknown one.
    pub open spec fn moved(self, command: Command) -> GameView {
        if !player_to_move(self.player) {
            self
        } else {
            match command {
                Command::Hit => GameView {
                    player: self.player.add(next_card(self.deck)),
                    dealer: self.dealer,
                    deck: after_draw(self.deck),
                },
                Command::Stand => GameView {
                    player: self.player.stood(),
                    dealer: self.dealer,
                    deck: self.deck,
                },
                Command::Exit => self,
                Command::Unknown => self,
            }
        }
    }

    /// What follows the move: a player who is not to move is done; a command
    /// to leave ends the game; after a card the player is asked again unless
    /// the hand now stands or is bust; to stand ends the turn; an unknown
    /// command asks again.
    pub open spec fn next_turn(self, command: Command) -> Turn {
        if !player_to_move(self.player) {
            Turn::Done
        } else {
            match command {
                Command::Hit => if self.moved(command).player.terminal() {
                    Turn::Done
                } else {
                    Turn::Again
                },
                Command::Stand => Turn::Done,
                Command::Exit => Turn::Exit,
                Command::Unknown => Turn::Again,
            }
        }
    }

    /// The round after the dealer's turn. The dealer sits out if the player is
    /// bust or one of the two holds a blackjack; otherwise the hidden card is
    /// turned up and the dealer plays by the policy.
    pub open spec fn dealer_played(self) -> GameView {
        if dealer_sits_out(self.player, self.dealer) {
            self
        } else {
            let end = dealer_result(self.dealer.turned(1, false), self.deck);
            GameView { player: self.player, dealer: end.0, deck: end.1 }
        }
    }
}

/// A round of the game.
pub struct Game {
    pub player: Player,
    pub dealer: Player,
    pub deck: Deck,
}

impl View for Game {
    type V = GameView;

    open spec fn view(&self) -> GameView {
        GameView { player: self.player@, dealer: self.dealer@, deck: self.deck@ }
    }
}

/// The command that a number stands for.
pub fn read_command(code: u8) -> (command: Command)
    ensures
        command == command_of(code),
{
    if code == 1 {
        Command::Hit
    } else if code == 2 {
        Command::Stand
    } else if code == 4 {
        Command::Exit
    } else {
        Command::Unknown
    }
}

impl Game {
    /// Both hands are well formed, and each is the hand of its side.
    pub open spec fn wf(&self) -> bool {
        &&& self.player.wf()
        &&& self.dealer.wf()
        &&& !self.player@.dealer
        &&& self.dealer@.dealer
    }

    /// A round before the deal, with the given shoe.
    pub fn with_deck(deck: Deck) -> (game: Game)
        ensures
            game.wf(),
            game@ == GameView::seated(deck@),
    {
        Game { player: Player::new(false), dealer: Player::new(true), deck: deck }
    }

    /// A round before the deal, with a freshly shuffled shoe of `DECKS`
    /// decks.
    pub fn new() -> (game: Game)
        ensures
            game.wf(),
            game@ == GameView::seated(game.deck@),
            game.deck@.len() == 52 * DECKS,
            game.deck@.to_multiset() == sorted_cards(DECKS as nat).to_multiset(),
    {
        Game::with_deck(Deck::new(DECKS))
    }

    /// Deals the opening hands from the shoe: two cards to each side in turn,
    /// the player first, and the dealer's second card face down.
    pub fn deal(&mut self)
        requires
            old(self).wf(),
            old(self)@ == GameView::seated(old(self).deck@),
        ensures
            final(self).wf(),
            final(self)@ == old(self)@.dealt(),
    {
        proof {
            lemma_opening_hands();
        }
        self.player.hit(&mut self.deck);
        self.dealer.hit(&mut self.deck);
        self.player.hit(&mut self.deck);
        self.dealer.hit(&mut self.deck);
        self.dealer.set_face_down(1, true);
    }

    /// A round with the given shoe, after the opening deal.
    pub fn start_with(deck: Deck) -> (game: Game)
        ensures
            game.wf(),
            game@ == GameView::seated(deck@).dealt(),
    {
        let mut game = Game::with_deck(deck);
        game.deal();
        game
    }

    /// A round with a freshly shuffled shoe of `DECKS` decks, after the
    /// opening deal.
    pub fn start() -> (game: Game)
        ensures
            game.wf(),
            exists|shoe: Seq<Card>|
                {
                    &&& shoe.len() == 52 * DECKS
                    &&& shoe.to_multiset() == sorted_cards(DECKS as nat).to_multiset()
                    &&& game@ == #[trigger] GameView::seated(shoe).dealt()
                },
    {
        let deck = Deck::new(DECKS);
        let ghost shoe = deck@;
        let game = Game::start_with(deck);
        assert(game@ == GameView::seated(shoe).dealt());
        game
    }

    /// Whether the player is asked for a move.
    pub fn player_to_move(&self) -> (asked: bool)
        requires
            self.wf(),
        ensures
            asked == player_to_move(self.player@),
    {
        !self.player.has_blackjack() && !self.player.is_terminal()
    }

    /// Carries out one move of the player and says what follows.
    pub fn player_move(&mut self, command: Command) -> (turn: Turn)
        requires
            old(self).wf(),
        ensures
            final(self).wf(),
            final(self)@ == old(self)@.moved(command),
            turn == old(self)@.next_turn(command),
    {
        if !self.player_to_move() {
            return Turn::Done;
        }
        match command {
            Command::Hit => {
                self.player.hit(&mut self.deck);
                if self.player.is_terminal() {
                    Turn::Done
                } else {
                    Turn::Again
                }
            },
            Command::Stand => {
                self.player.stand();
                Turn::Done
            },
            Command::Exit => Turn::Exit,
            Command::Unknown => Turn::Again,
        }
    }

    /// The dealer's turn. The dealer sits out if the player is bust or one of
    /// the two holds a blackjack. Otherwise the hidden card is turned up, and
    /// the dealer takes cards while the total is below seventeen, then stands
    /// on seventeen to twenty-one or is bust above. A hand of `MAX_HAND` cards
    /// takes no more, whatever its total.
    pub fn dealer_play(&mut self)
        requires
            old(self).wf(),
        ensures
            final(self).wf(),
            final(self)@ == old(self)@.dealer_played(),
            final(self).player == old(self).player,
            !dealer_sits_out(old(self).player@, old(self).dealer@) ==> {
                let before = old(self).dealer@;
                let hand = final(self).dealer@;
                &&& hand.terminal()
                &&& before.cards.len() <= hand.cards.len() <= MAX_HAND
                &&& !before.standing && hand.cards.len() < MAX_HAND ==> {
                    hand.bust() != (hand.standing && 17 <= hand.total() <= 21)
                }
            },
    {
        if self.player.is_bust() || self.player.has_blackjack() || self.dealer.has_blackjack() {
            return ;
        }
        self.dealer.set_face_down(1, false);
        let ghost first = self.dealer@;
        let ghost shoe = self.deck@;
        proof {
            lemma_dealer_result(first, shoe);
        }
        while self.dealer.hand_value() < MAX_DEALER_HAND_VALUE && !self.dealer.is_standing()
            invariant
                self.wf(),
                self.player == old(self).player,
                dealer_result(self.dealer@, self.deck@) == dealer_result(first, shoe),
            decreases MAX_HAND - self.dealer@.cards.len(),
        {
            self.dealer.hit(&mut self.deck);
        }
        let total = self.dealer.hand_value();
        if total >= MAX_DEALER_HAND_VALUE && total <= BLACKJACK && !self.dealer.is_standing() {
            self.dealer.stand();
        }
    }

    /// Who has won the round, by the rules of `outcome`. There is always a
    /// winner or a tie.
    pub fn check_winner(&self) -> (winner: Option<Outcome>)
        requires
            self.wf(),
        ensures
            winner == Some(outcome(self.player@, self.dealer@)),
    {
        if self.player.is_bust() {
            return Some(Outcome::DealerWin);
        }
        if self.player.has_blackjack() && !self.dealer.has_blackjack() {
            return Some(Outcome::PlayerBlackjack);
        }
        if self.player.has_blackjack() && self.dealer.has_blackjack() {
            return Some(Outcome::Push);
        }
        if self.dealer.has_blackjack() {
            return Some(Outcome::DealerWin);
        }
        if self.dealer.is_bust() || self.player.hand_value() > self.dealer.hand_value() {
            return Some(Outcome::PlayerWin);
        }
        if self.player.hand_value() == self.dealer.hand_value() {
            return Some(Outcome::Push);
        }
        Some(Outcome::DealerWin)
    }
}

/// The dealer's policy comes to an end, and where. From a well-formed hand it
/// draws as many cards as the hand has room for at most, each from the top of
/// the shoe, and keeps the cards that were there. The hand it leaves takes no
/// more cards: it is bust or it stands. A hand that did not stand before and
/// has not reached `MAX_HAND` cards is then either bust, with a total above
/// twenty-one, or stands with a total of seventeen to twenty-one, and never
/// both.
pub proof fn lemma_dealer_result(hand: HandView, deck: Seq<Card>)
    requires
        hand.wf(),
    ensures
        ({
            let end = dealer_result(hand, deck).0;
            let rest = dealer_result(hand, deck).1;
            let drawn = end.cards.len() - hand.cards.len();
            &&& end.wf()
            &&& end.dealer == hand.dealer
            &&& 0 <= drawn <= MAX_HAND - hand.cards.len()
            &&& end.cards.take(hand.cards.len() as int) == hand.cards
            &&& rest.len() == if deck.len() >= drawn {
                deck.len() - drawn
            } else {
                0
            }
            &&& !dealer_draws(end)
            &&& end.terminal()
            &&& !hand.standing && end.cards.len() < MAX_HAND ==> {
                end.bust() != (end.standing && 17 <= end.total() <= 21)
            }
        }),
    decreases MAX_HAND - hand.cards.len(),
{
    if dealer_draws(hand) {
        let next = hand.add(next_card(deck));
        lemma_dealer_result(next, after_draw(deck));
        let end = dealer_result(hand, deck).0;
        assert(end.cards.take(next.cards.len() as int).take(hand.cards.len() as int)
            =~= end.cards.take(hand.cards.len() as int));
        assert(next.cards.take(hand.cards.len() as int) =~= hand.cards);
    } else {
        assert(hand.cards.take(hand.cards.len() as int) =~= hand.cards);
    }
}

/// After one card a hand holds eleven points at most, so that the opening
/// deal never meets a hand that takes no card.
proof fn lemma_opening_hands()
    ensures
        forall|dealer: bool, card: Card|
            !(#[trigger] HandView::fresh(dealer).add(card)).terminal(),
{
    assert forall|dealer: bool, card: Card|
        !(#[trigger] HandView::fresh(dealer).add(card)).terminal() by {
        lemma_add_raises_total(HandView::fresh(dealer), card);
    }
}

} // verus!

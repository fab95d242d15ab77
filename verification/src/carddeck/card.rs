//! # Card
//!
//! A card is an instance that can be used to perform actions by the player to affect the
//! game world.
//! These are stored in the player's deck, of which duplicates may exist.

use vstd::prelude::*;

use rand::distr::weighted::WeightedIndex;
use rand::distr::Distribution;
use rand::Rng;

use crate::mushrooms::definitions::{spec_type_index, MushroomType};

verus! {

/// How rare a card is
#[derive(Debug, Clone, Copy, PartialEq, Eq, Structural)]
pub enum Rarity {
    Common,
    Uncommon,
    Rare,
}

impl Default for Rarity {
    fn default() -> (r: Self)
        ensures
            r == Rarity::Common,
    {
        Rarity::Common
    }
}

/// The template a card is made from
#[derive(Debug)]
pub struct CardTemplate {
    pub name: String,
    pub mushroom_type: MushroomType,
    pub rarity: Rarity,
}

/// The mathematical content of a card template.
pub struct CardTemplateView {
    pub name: Seq<char>,
    pub mushroom_type: MushroomType,
    pub rarity: Rarity,
}

impl View for CardTemplate {
    type V = CardTemplateView;

    open spec fn view(&self) -> CardTemplateView {
        CardTemplateView { name: self.name@, mushroom_type: self.mushroom_type, rarity: self.rarity }
    }
}

/// A card in the deck or the hand
#[derive(Debug)]
pub struct Card {
    pub name: String,
    pub mushroom_type: MushroomType,
    pub rarity: Rarity,
}

impl Default for Card {
    fn default() -> (r: Self)
        ensures
            r.name@ == "Card"@,
            r.mushroom_type == MushroomType::Basic,
            r.rarity == Rarity::Common,
    {
        Card { name: "Card".to_string(), mushroom_type: MushroomType::Basic, rarity: Rarity::Common }
    }
}

impl Card {
    /// A card made from a template
    pub fn from_template(value: &CardTemplate) -> (r: Self)
        ensures
            r.name@ == value.name@,
            r.mushroom_type == value.mushroom_type,
            r.rarity == value.rarity,
    {
        Card { name: value.name.clone(), mushroom_type: value.mushroom_type, rarity: value.rarity }
    }
}

/// The card templates of a given rarity, in order.
pub open spec fn of_rarity(cards: Seq<CardTemplate>, r: Rarity) -> Seq<CardTemplate>
    decreases cards.len(),
{
    if cards.len() == 0 {
        Seq::empty()
    } else if cards.last().rarity == r {
        of_rarity(cards.drop_last(), r).push(cards.last())
    } else {
        of_rarity(cards.drop_last(), r)
    }
}

/// The templates of a rarity among the first `i` cards start the templates of that
/// rarity among all of them.
proof fn lemma_of_rarity_prefix(cards: Seq<CardTemplate>, r: Rarity, i: int)
    requires
        0 <= i <= cards.len(),
    ensures
        of_rarity(cards.take(i), r).len() <= of_rarity(cards, r).len(),
        forall|k: int|
            0 <= k < of_rarity(cards.take(i), r).len() ==> #[trigger] of_rarity(cards.take(i), r)[k]
                == of_rarity(cards, r)[k],
    decreases cards.len() - i,
{
    if i == cards.len() {
        assert(cards.take(i) =~= cards);
    } else {
        lemma_of_rarity_prefix(cards.drop_last(), r, i);
        assert(cards.drop_last().take(i) =~= cards.take(i));
    }
}

/// Every template of `of_rarity(cards, r)` is one of the cards, of rarity `r`.
proof fn lemma_of_rarity_members(cards: Seq<CardTemplate>, r: Rarity)
    ensures
        forall|k: int|
            0 <= k < of_rarity(cards, r).len() ==> (#[trigger] of_rarity(cards, r)[k]).rarity == r
                && cards.contains(of_rarity(cards, r)[k]),
    decreases cards.len(),
{
    if cards.len() > 0 {
        lemma_of_rarity_members(cards.drop_last(), r);
        assert forall|k: int| 0 <= k < of_rarity(cards, r).len() implies (#[trigger] of_rarity(
            cards,
            r,
        )[k]).rarity == r && cards.contains(of_rarity(cards, r)[k]) by {
            if k < of_rarity(cards.drop_last(), r).len() {
                let c = of_rarity(cards.drop_last(), r)[k];
                assert(of_rarity(cards, r)[k] == c);
                let j = choose|j: int| 0 <= j < cards.drop_last().len() && cards.drop_last()[j] == c;
                assert(cards[j] == c);
            } else {
                assert(of_rarity(cards, r)[k] == cards.last());
                assert(cards[cards.len() - 1] == cards.last());
            }
        }
    }
}

/// The rarities a random card is drawn from, in order.
pub open spec fn spec_rarity_choices() -> Seq<Rarity> {
    seq![Rarity::Common, Rarity::Uncommon, Rarity::Rare]
}

/// The weights of the rarities: common cards come six times as often as rare ones,
/// uncommon ones three times as often.
pub open spec fn spec_rarity_weights() -> Seq<u32> {
    seq![60u32, 30u32, 10u32]
}

/// The rarities a card is drawn from, in the order of their weights.
pub fn rarity_choices() -> (r: [Rarity; 3])
    ensures
        r@ == spec_rarity_choices(),
{
    let r = [Rarity::Common, Rarity::Uncommon, Rarity::Rare];
    proof {
        assert(r@ =~= spec_rarity_choices());
    }
    r
}

/// The weight of each rarity, paired with `rarity_choices` by position.
pub fn rarity_weights() -> (r: [u32; 3])
    ensures
        r@ == spec_rarity_weights(),
{
    let r = [60u32, 30, 10];
    proof {
        assert(r@ =~= spec_rarity_weights());
    }
    r
}

/// Cards are drawn common, uncommon or rare, in that order of the weights; a common
/// card comes six times as often as a rare one and an uncommon one three times, out
/// of a total weight of 100.
pub proof fn lemma_rarity_weights()
    ensures
        spec_rarity_choices() == seq![Rarity::Common, Rarity::Uncommon, Rarity::Rare],
        spec_rarity_weights().len() == 3,
        spec_rarity_weights()[0] == 6 * spec_rarity_weights()[2],
        spec_rarity_weights()[1] == 3 * spec_rarity_weights()[2],
        weight_sum(spec_rarity_weights()) == 100,
{
    assert(spec_rarity_choices() =~= seq![Rarity::Common, Rarity::Uncommon, Rarity::Rare]);
    reveal_with_fuel(weight_sum, 4);
}

/// The sum of a sequence of weights.
pub open spec fn weight_sum(w: Seq<u32>) -> int
    decreases w.len(),
{
    if w.len() == 0 {
        0
    } else {
        weight_sum(w.drop_last()) + w.last()
    }
}

/// An index drawn from `rand`'s `WeightedIndex` over `weights`, with the thread's
/// random generator. The distribution is built from the weights and fails only when
/// they are empty, all zero or sum past `u32::MAX`, which the precondition rules
/// out; the sample is the first index whose running sum exceeds a uniform draw below
/// the total, so an index of weight zero never comes out. Which index comes out is
/// left unsaid: it rests on chance
#[verifier::external_body]
fn sample_weighted_index(weights: &[u32]) -> (r: usize)
    requires
        weights@.len() > 0,
        0 < weight_sum(weights@) <= u32::MAX,
    ensures
        r < weights@.len(),
        weights@[r as int] > 0,
{
    let dist = WeightedIndex::new(weights).unwrap();
    dist.sample(&mut rand::rng())
}

/// A number drawn uniformly below `n` by `rand`'s `random_range` over `0..n` with
/// the thread's random generator; the range must not be empty. Which number comes out
/// is left unsaid: it rests on chance
#[verifier::external_body]
fn random_below(n: usize) -> (r: usize)
    requires
        n > 0,
    ensures
        r < n,
{
    rand::rng().random_range(0..n)
}

/// Resource holding the card templates
#[derive(Debug)]
pub struct CardTemplates {
    pub cards: Vec<CardTemplate>,
}

impl Default for CardTemplates {
    fn default() -> (r: Self)
        ensures
            r.cards@.len() == 0,
    {
        CardTemplates { cards: Vec::new() }
    }
}

impl CardTemplates {
    /// Every rarity that can be drawn has a template.
    pub open spec fn covers_rarities(&self) -> bool {
        forall|i: int|
            0 <= i < spec_rarity_choices().len() ==> of_rarity(
                self.cards@,
                #[trigger] spec_rarity_choices()[i],
            ).len() > 0
    }

    /// The number of templates of a rarity
    pub fn count_of_rarity(&self, rarity: Rarity) -> (r: usize)
        ensures
            r == of_rarity(self.cards@, rarity).len(),
    {
        let mut count: usize = 0;
        let mut i: usize = 0;
        while i < self.cards.len()
            invariant
                0 <= i <= self.cards@.len(),
                count == of_rarity(self.cards@.take(i as int), rarity).len(),
                count <= i,
            decreases self.cards.len() - i,
        {
            proof {
                assert(self.cards@.take(i + 1).drop_last() =~= self.cards@.take(i as int));
            }
            if self.cards[i].rarity == rarity {
                count = count + 1;
            }
            i = i + 1;
        }
        proof {
            assert(self.cards@.take(self.cards@.len() as int) =~= self.cards@);
        }
        count
    }

    /// The `choice`-th template (from 0) of the given rarity
    pub fn pick_card(&self, rarity: Rarity, choice: usize) -> (r: &CardTemplate)
        requires
            choice < of_rarity(self.cards@, rarity).len(),
        ensures
            *r == of_rarity(self.cards@, rarity)[choice as int],
    {
        let mut count: usize = 0;
        let mut i: usize = 0;
        while i < self.cards.len()
            invariant
                0 <= i <= self.cards@.len(),
                count == of_rarity(self.cards@.take(i as int), rarity).len(),
                count <= choice,
                choice < of_rarity(self.cards@, rarity).len(),
            decreases self.cards.len() - i,
        {
            proof {
                assert(self.cards@.take(i + 1).drop_last() =~= self.cards@.take(i as int));
                lemma_of_rarity_prefix(self.cards@, rarity, i + 1);
            }
            if self.cards[i].rarity == rarity {
                if count == choice {
                    proof {
                        assert(of_rarity(self.cards@.take(i + 1), rarity)[count as int]
                            == self.cards@[i as int]);
                    }
                    return &self.cards[i];
                }
                count = count + 1;
            }
            i = i + 1;
        }
        proof {
            assert(self.cards@.take(self.cards@.len() as int) =~= self.cards@);
        }
        &self.cards[0]
    }

    /// Draw a random card template: a rarity is drawn by its weight, then one of the
    /// templates of that rarity uniformly. The weights handed to the draw are
    /// `rarity_weights`, paired by position with `rarity_choices`; which rarity and
    /// which template come out rests on chance
    pub fn draw_random_card(&self) -> (r: &CardTemplate)
        requires
            self.covers_rarities(),
        ensures
            self.cards@.contains(*r),
            exists|k: int, c: int|
                0 <= k < spec_rarity_choices().len() && spec_rarity_weights()[k] > 0 && 0 <= c
                    < of_rarity(self.cards@, spec_rarity_choices()[k]).len() && *r == of_rarity(
                    self.cards@,
                    spec_rarity_choices()[k],
                )[c],
    {
        let rarity_choices = rarity_choices();
        let rarity_weights = rarity_weights();
        proof {
            assert(weight_sum(rarity_weights@) == 100) by {
                reveal_with_fuel(weight_sum, 4);
            }
        }
        let k = sample_weighted_index(&rarity_weights);
        let card_rarity = rarity_choices[k];
        let n = self.count_of_rarity(card_rarity);
        proof {
            assert(card_rarity == spec_rarity_choices()[k as int]);
        }
        let choice = random_below(n);
        let r = self.pick_card(card_rarity, choice);
        proof {
            lemma_of_rarity_members(self.cards@, card_rarity);
            assert(of_rarity(self.cards@, card_rarity)[choice as int] == *r);
            assert(0 <= k < spec_rarity_choices().len() && spec_rarity_weights()[k as int] > 0
                && 0 <= choice < of_rarity(self.cards@, spec_rarity_choices()[k as int]).len()
                && *r == of_rarity(self.cards@, spec_rarity_choices()[k as int])[choice as int]);
        }
        r
    }
}

/// The name on the card of a mushroom type: the type's own name.
pub open spec fn card_name(t: MushroomType) -> Seq<char> {
    match t {
        MushroomType::Basic => "Basic"@,
        MushroomType::Pulse => "Pulse"@,
        MushroomType::Sideways => "Sideways"@,
        MushroomType::Fork => "Fork"@,
        MushroomType::Threeway => "Threeway"@,
        MushroomType::Diagonal => "Diagonal"@,
        MushroomType::Surround => "Surround"@,
        MushroomType::Skipper => "Skipper"@,
        MushroomType::Deleter => "Deleter"@,
        MushroomType::Bomb => "Bomb"@,
        MushroomType::Amplifier => "Amplifier"@,
        MushroomType::FourwayAmplifier => "Fourway_amplifier"@,
        MushroomType::Splitter => "Splitter"@,
        MushroomType::Chain => "Chain"@,
        MushroomType::Burst => "Burst"@,
        MushroomType::Converter => "Converter"@,
        MushroomType::Knight => "Knight"@,
        MushroomType::Test => "Test"@,
    }
}

/// The rarity of the card of a mushroom type: the Surround is rare, the Splitter
/// uncommon, every other card common.
pub open spec fn card_rarity(t: MushroomType) -> Rarity {
    match t {
        MushroomType::Surround => Rarity::Rare,
        MushroomType::Splitter => Rarity::Uncommon,
        _ => Rarity::Common,
    }
}

/// There is one card template for each mushroom type but the test type, in the
/// order the types are declared; each plants the type it is named after and has
/// that type's rarity. So no two templates plant the same type, and every type that
/// can be planted has a card.
pub proof fn lemma_card_templates()
    ensures
        spec_card_templates().len() == 17,
        forall|i: int|
            0 <= i < 17 ==> spec_type_index(#[trigger] spec_card_templates()[i].mushroom_type) == i,
        forall|i: int|
            0 <= i < 17 ==> (#[trigger] spec_card_templates()[i]).name == card_name(
                spec_card_templates()[i].mushroom_type,
            ),
        forall|i: int|
            0 <= i < 17 ==> (#[trigger] spec_card_templates()[i]).rarity == card_rarity(
                spec_card_templates()[i].mushroom_type,
            ),
        forall|i: int, j: int|
            0 <= i < j < 17 ==> spec_card_templates()[i].mushroom_type
                != spec_card_templates()[j].mushroom_type,
        forall|t: MushroomType|
            t != MushroomType::Test ==> #[trigger] spec_type_index(t) < 17
                && spec_card_templates()[spec_type_index(t) as int].mushroom_type == t,
{
}

/// The card templates of the game, in order.
pub open spec fn spec_card_templates() -> Seq<CardTemplateView> {
    seq![
        CardTemplateView { name: "Basic"@, mushroom_type: MushroomType::Basic, rarity: Rarity::Common },
        CardTemplateView { name: "Pulse"@, mushroom_type: MushroomType::Pulse, rarity: Rarity::Common },
        CardTemplateView { name: "Sideways"@, mushroom_type: MushroomType::Sideways, rarity: Rarity::Common },
        CardTemplateView { name: "Fork"@, mushroom_type: MushroomType::Fork, rarity: Rarity::Common },
        CardTemplateView { name: "Threeway"@, mushroom_type: MushroomType::Threeway, rarity: Rarity::Common },
        CardTemplateView { name: "Diagonal"@, mushroom_type: MushroomType::Diagonal, rarity: Rarity::Common },
        CardTemplateView { name: "Surround"@, mushroom_type: MushroomType::Surround, rarity: Rarity::Rare },
        CardTemplateView { name: "Skipper"@, mushroom_type: MushroomType::Skipper, rarity: Rarity::Common },
        CardTemplateView { name: "Deleter"@, mushroom_type: MushroomType::Deleter, rarity: Rarity::Common },
        CardTemplateView { name: "Bomb"@, mushroom_type: MushroomType::Bomb, rarity: Rarity::Common },
        CardTemplateView { name: "Amplifier"@, mushroom_type: MushroomType::Amplifier, rarity: Rarity::Common },
        CardTemplateView { name: "Fourway_amplifier"@, mushroom_type: MushroomType::FourwayAmplifier, rarity: Rarity::Common },
        CardTemplateView { name: "Splitter"@, mushroom_type: MushroomType::Splitter, rarity: Rarity::Uncommon },
        CardTemplateView { name: "Chain"@, mushroom_type: MushroomType::Chain, rarity: Rarity::Common },
        CardTemplateView { name: "Burst"@, mushroom_type: MushroomType::Burst, rarity: Rarity::Common },
        CardTemplateView { name: "Converter"@, mushroom_type: MushroomType::Converter, rarity: Rarity::Common },
        CardTemplateView { name: "Knight"@, mushroom_type: MushroomType::Knight, rarity: Rarity::Common },
    ]
}

/// Create the card templates of the game
pub fn create_card_definitions(card_templates: &mut CardTemplates)
    ensures
        final(card_templates).cards@.map_values(|c: CardTemplate| c@) == spec_card_templates(),
        final(card_templates).covers_rarities(),
{
    let mut cards: Vec<CardTemplate> = Vec::new();
    cards.push(
        CardTemplate {
            name: "Basic".to_string(),
            mushroom_type: MushroomType::Basic,
            rarity: Rarity::Common,
        },
    );
    cards.push(
        CardTemplate {
            name: "Pulse".to_string(),
            mushroom_type: MushroomType::Pulse,
            rarity: Rarity::Common,
        },
    );
    cards.push(
        CardTemplate {
            name: "Sideways".to_string(),
            mushroom_type: MushroomType::Sideways,
            rarity: Rarity::Common,
        },
    );
    cards.push(
        CardTemplate {
            name: "Fork".to_string(),
            mushroom_type: MushroomType::Fork,
            rarity: Rarity::Common,
        },
    );
    cards.push(
        CardTemplate {
            name: "Threeway".to_string(),
            mushroom_type: MushroomType::Threeway,
            rarity: Rarity::Common,
        },
    );
    cards.push(
        CardTemplate {
            name: "Diagonal".to_string(),
            mushroom_type: MushroomType::Diagonal,
            rarity: Rarity::Common,
        },
    );
    cards.push(
        CardTemplate {
            name: "Surround".to_string(),
            mushroom_type: MushroomType::Surround,
            rarity: Rarity::Rare,
        },
    );
    cards.push(
        CardTemplate {
            name: "Skipper".to_string(),
            mushroom_type: MushroomType::Skipper,
            rarity: Rarity::Common,
        },
    );
    cards.push(
        CardTemplate {
            name: "Deleter".to_string(),
            mushroom_type: MushroomType::Deleter,
            rarity: Rarity::Common,
        },
    );
    cards.push(
        CardTemplate {
            name: "Bomb".to_string(),
            mushroom_type: MushroomType::Bomb,
            rarity: Rarity::Common,
        },
    );
    cards.push(
        CardTemplate {
            name: "Amplifier".to_string(),
            mushroom_type: MushroomType::Amplifier,
            rarity: Rarity::Common,
        },
    );
    cards.push(
        CardTemplate {
            name: "Fourway_amplifier".to_string(),
            mushroom_type: MushroomType::FourwayAmplifier,
            rarity: Rarity::Common,
        },
    );
    cards.push(
        CardTemplate {
            name: "Splitter".to_string(),
            mushroom_type: MushroomType::Splitter,
            rarity: Rarity::Uncommon,
        },
    );
    cards.push(
        CardTemplate {
            name: "Chain".to_string(),
            mushroom_type: MushroomType::Chain,
            rarity: Rarity::Common,
        },
    );
    cards.push(
        CardTemplate {
            name: "Burst".to_string(),
            mushroom_type: MushroomType::Burst,
            rarity: Rarity::Common,
        },
    );
    cards.push(
        CardTemplate {
            name: "Converter".to_string(),
            mushroom_type: MushroomType::Converter,
            rarity: Rarity::Common,
        },
    );
    cards.push(
        CardTemplate {
            name: "Knight".to_string(),
            mushroom_type: MushroomType::Knight,
            rarity: Rarity::Common,
        },
    );
    proof {
        assert(cards@.map_values(|c: CardTemplate| c@) =~= spec_card_templates());
        reveal_with_fuel(of_rarity, 18);
        assert(of_rarity(cards@, Rarity::Common).len() > 0);
        assert(of_rarity(cards@, Rarity::Uncommon).len() > 0);
        assert(of_rarity(cards@, Rarity::Rare).len() > 0);
    }
    card_templates.cards = cards;
}

} // verus!

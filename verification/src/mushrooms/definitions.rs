//! Mushroom definitions

use vstd::prelude::*;

use crate::mushrooms::connection_patterns;
use crate::play_field::tiles::TileType;

verus! {

/// Relative position offset for connections
#[derive(Debug, Clone, Copy, PartialEq, Eq, Structural)]
pub struct GridOffset {
    pub x: i32,
    pub y: i32,
}

impl GridOffset {
    pub fn new(x: i32, y: i32) -> (r: Self)
        ensures
            r.x == x,
            r.y == y,
    {
        Self { x, y }
    }
}

/// All mushroom types in the game
#[derive(Debug, Clone, Copy, PartialEq, Eq, Structural, Hash)]
pub enum MushroomType {
    Basic,
    Pulse,
    Sideways,
    Fork,
    Threeway,
    Diagonal,
    Surround,
    Skipper,
    Deleter,
    Bomb,
    Amplifier,
    FourwayAmplifier,
    Splitter,
    Chain,
    Burst,
    Converter,
    Knight,
    Test,
}

impl Default for MushroomType {
    fn default() -> (r: Self)
        ensures
            r == MushroomType::Basic,
    {
        MushroomType::Basic
    }
}

/// Number of mushroom types.
pub const MUSHROOM_TYPE_COUNT: usize = 18;

/// The position of a mushroom type in the declaration order of the enum.
pub open spec fn spec_type_index(t: MushroomType) -> usize {
    match t {
        MushroomType::Basic => 0,
        MushroomType::Pulse => 1,
        MushroomType::Sideways => 2,
        MushroomType::Fork => 3,
        MushroomType::Threeway => 4,
        MushroomType::Diagonal => 5,
        MushroomType::Surround => 6,
        MushroomType::Skipper => 7,
        MushroomType::Deleter => 8,
        MushroomType::Bomb => 9,
        MushroomType::Amplifier => 10,
        MushroomType::FourwayAmplifier => 11,
        MushroomType::Splitter => 12,
        MushroomType::Chain => 13,
        MushroomType::Burst => 14,
        MushroomType::Converter => 15,
        MushroomType::Knight => 16,
        MushroomType::Test => 17,
    }
}

/// The mushroom type at a position of the declaration order.
pub open spec fn spec_type_at(i: usize) -> MushroomType {
    if i == 0 {
        MushroomType::Basic
    } else if i == 1 {
        MushroomType::Pulse
    } else if i == 2 {
        MushroomType::Sideways
    } else if i == 3 {
        MushroomType::Fork
    } else if i == 4 {
        MushroomType::Threeway
    } else if i == 5 {
        MushroomType::Diagonal
    } else if i == 6 {
        MushroomType::Surround
    } else if i == 7 {
        MushroomType::Skipper
    } else if i == 8 {
        MushroomType::Deleter
    } else if i == 9 {
        MushroomType::Bomb
    } else if i == 10 {
        MushroomType::Amplifier
    } else if i == 11 {
        MushroomType::FourwayAmplifier
    } else if i == 12 {
        MushroomType::Splitter
    } else if i == 13 {
        MushroomType::Chain
    } else if i == 14 {
        MushroomType::Burst
    } else if i == 15 {
        MushroomType::Converter
    } else if i == 16 {
        MushroomType::Knight
    } else {
        MushroomType::Test
    }
}

/// The declaration order numbers the types `0..18` one to one.
pub proof fn lemma_type_index_bijective(t: MushroomType, i: usize)
    ensures
        spec_type_index(t) < MUSHROOM_TYPE_COUNT,
        spec_type_at(spec_type_index(t)) == t,
        i < MUSHROOM_TYPE_COUNT ==> spec_type_index(spec_type_at(i)) == i,
{
}

impl MushroomType {
    /// The position of this type in the declaration order.
    pub fn type_index(&self) -> (r: usize)
        ensures
            r == spec_type_index(*self),
    {
        match self {
            MushroomType::Basic => 0,
            MushroomType::Pulse => 1,
            MushroomType::Sideways => 2,
            MushroomType::Fork => 3,
            MushroomType::Threeway => 4,
            MushroomType::Diagonal => 5,
            MushroomType::Surround => 6,
            MushroomType::Skipper => 7,
            MushroomType::Deleter => 8,
            MushroomType::Bomb => 9,
            MushroomType::Amplifier => 10,
            MushroomType::FourwayAmplifier => 11,
            MushroomType::Splitter => 12,
            MushroomType::Chain => 13,
            MushroomType::Burst => 14,
            MushroomType::Converter => 15,
            MushroomType::Knight => 16,
            MushroomType::Test => 17,
        }
    }

    /// The type at a position of the declaration order.
    pub fn from_type_index(i: usize) -> (r: MushroomType)
        requires
            i < MUSHROOM_TYPE_COUNT,
        ensures
            r == spec_type_at(i),
    {
        if i == 0 {
            MushroomType::Basic
        } else if i == 1 {
            MushroomType::Pulse
        } else if i == 2 {
            MushroomType::Sideways
        } else if i == 3 {
            MushroomType::Fork
        } else if i == 4 {
            MushroomType::Threeway
        } else if i == 5 {
            MushroomType::Diagonal
        } else if i == 6 {
            MushroomType::Surround
        } else if i == 7 {
            MushroomType::Skipper
        } else if i == 8 {
            MushroomType::Deleter
        } else if i == 9 {
            MushroomType::Bomb
        } else if i == 10 {
            MushroomType::Amplifier
        } else if i == 11 {
            MushroomType::FourwayAmplifier
        } else if i == 12 {
            MushroomType::Splitter
        } else if i == 13 {
            MushroomType::Chain
        } else if i == 14 {
            MushroomType::Burst
        } else if i == 15 {
            MushroomType::Converter
        } else if i == 16 {
            MushroomType::Knight
        } else {
            MushroomType::Test
        }
    }
}

/// Defines how a mushroom behaves when activated
#[derive(Debug, Clone, Copy, PartialEq, Eq, Structural)]
pub enum ActivationBehavior {
    /// Just produces spores, no propagation
    Basic,
    /// Boosts incoming energy before forwarding
    Amplifier {
        /// Multiplication factor for energy, in percent (150 is a factor of 1.5)
        boost_percent: u32,
    },
    /// Modifies terrain and forwards energy
    Converter {
        /// What tile type to convert adjacent tiles to
        convert_to: TileType,
    },
    /// Deletes a mushroom in the connected square
    Deleter,
}

impl ActivationBehavior {
    /// Whether an activation passes energy on to the connected mushrooms: an
    /// amplifier boosts it and forwards it, a converter forwards it; a basic mushroom
    /// only produces spores, and a deleter destroys its targets instead
    pub fn propagates(&self) -> (r: bool)
        ensures
            r == (*self is Amplifier || *self is Converter),
    {
        match self {
            ActivationBehavior::Amplifier { .. } => true,
            ActivationBehavior::Converter { .. } => true,
            ActivationBehavior::Basic => false,
            ActivationBehavior::Deleter => false,
        }
    }

    /// Whether an activation destroys the mushrooms it reaches
    pub fn deletes(&self) -> (r: bool)
        ensures
            r == *self is Deleter,
    {
        match self {
            ActivationBehavior::Deleter => true,
            _ => false,
        }
    }
}

/// Requirements to unlock a mushroom type
#[derive(Debug)]
pub enum UnlockRequirement {
    /// Always unlocked
    Unconditional,
    /// Requires total spores earned (whole spores)
    TotalSpores(u64),
    /// Requires reaching a specific level
    ReachLevel(usize),
    /// Requires a certain number of chain activations
    ChainActivations(u64),
    /// Multiple requirements (all must be met)
    All(Vec<UnlockRequirement>),
    /// Multiple requirements (any can be met)
    Any(Vec<UnlockRequirement>),
}

/// Whether a requirement holds for a player who has earned `spores` whole spores in
/// total, made `chains` chain activations and reached level `level`.
pub open spec fn spec_is_met(r: UnlockRequirement, spores: u64, chains: u64, level: usize) -> bool
    decreases r,
{
    match r {
        UnlockRequirement::Unconditional => true,
        UnlockRequirement::TotalSpores(required) => spores >= required,
        UnlockRequirement::ReachLevel(l) => level >= l,
        UnlockRequirement::ChainActivations(required) => chains >= required,
        UnlockRequirement::All(reqs) => all_met(reqs@, spores, chains, level),
        UnlockRequirement::Any(reqs) => any_met(reqs@, spores, chains, level),
    }
}

/// Every requirement of the sequence is met.
pub open spec fn all_met(s: Seq<UnlockRequirement>, spores: u64, chains: u64, level: usize) -> bool
    decreases s,
{
    if s.len() == 0 {
        true
    } else {
        spec_is_met(s[0], spores, chains, level) && all_met(s.drop_first(), spores, chains, level)
    }
}

/// Some requirement of the sequence is met.
pub open spec fn any_met(s: Seq<UnlockRequirement>, spores: u64, chains: u64, level: usize) -> bool
    decreases s,
{
    if s.len() == 0 {
        false
    } else {
        spec_is_met(s[0], spores, chains, level) || any_met(s.drop_first(), spores, chains, level)
    }
}

/// `all_met` and `any_met` are the quantified statements they stand for.
pub proof fn lemma_all_any_met(s: Seq<UnlockRequirement>, spores: u64, chains: u64, level: usize)
    ensures
        all_met(s, spores, chains, level) <==> forall|j: int|
            0 <= j < s.len() ==> #[trigger] spec_is_met(s[j], spores, chains, level),
        any_met(s, spores, chains, level) <==> exists|j: int|
            0 <= j < s.len() && #[trigger] spec_is_met(s[j], spores, chains, level),
    decreases s.len(),
{
    if s.len() > 0 {
        let t = s.drop_first();
        lemma_all_any_met(t, spores, chains, level);
        assert(all_met(s, spores, chains, level) == (spec_is_met(s[0], spores, chains, level)
            && all_met(t, spores, chains, level)));
        assert(any_met(s, spores, chains, level) == (spec_is_met(s[0], spores, chains, level)
            || any_met(t, spores, chains, level)));
        assert forall|j: int| 0 <= j < t.len() implies t[j] == s[j + 1] by {}
        if forall|j: int| 0 <= j < s.len() ==> #[trigger] spec_is_met(s[j], spores, chains, level) {
            assert forall|j: int| 0 <= j < t.len() implies #[trigger] spec_is_met(
                t[j],
                spores,
                chains,
                level,
            ) by {
                assert(spec_is_met(s[j + 1], spores, chains, level));
            }
        }
        if all_met(s, spores, chains, level) {
            assert forall|j: int| 0 <= j < s.len() implies #[trigger] spec_is_met(
                s[j],
                spores,
                chains,
                level,
            ) by {
                if j > 0 {
                    assert(spec_is_met(t[j - 1], spores, chains, level));
                }
            }
        }
        if exists|j: int| 0 <= j < s.len() && #[trigger] spec_is_met(s[j], spores, chains, level) {
            let j = choose|j: int|
                0 <= j < s.len() && #[trigger] spec_is_met(s[j], spores, chains, level);
            if j > 0 {
                assert(spec_is_met(t[j - 1], spores, chains, level));
            }
        }
        if any_met(t, spores, chains, level) {
            let j = choose|j: int|
                0 <= j < t.len() && #[trigger] spec_is_met(t[j], spores, chains, level);
            assert(spec_is_met(s[j + 1], spores, chains, level));
        }
    }
}

impl UnlockRequirement {
    /// Check if this requirement is met, for a player who has earned
    /// `total_spores_earned` whole spores, made `chain_activations` chain
    /// activations and reached level `current_level`.
    pub fn is_met(&self, total_spores_earned: u64, chain_activations: u64, current_level: usize) -> (r:
        bool)
        ensures
            r == spec_is_met(*self, total_spores_earned, chain_activations, current_level),
        decreases self,
    {
        match self {
            UnlockRequirement::Unconditional => true,
            UnlockRequirement::TotalSpores(required) => total_spores_earned >= *required,
            UnlockRequirement::ReachLevel(level) => current_level >= *level,
            UnlockRequirement::ChainActivations(required) => chain_activations >= *required,
            UnlockRequirement::All(reqs) => {
                proof {
                    lemma_all_any_met(reqs@, total_spores_earned, chain_activations, current_level);
                }
                let mut i: usize = 0;
                while i < reqs.len()
                    invariant
                        0 <= i <= reqs.len(),
                        *self == UnlockRequirement::All(*reqs),
                        all_met(reqs@, total_spores_earned, chain_activations, current_level)
                            <==> forall|j: int|
                            0 <= j < reqs@.len() ==> #[trigger] spec_is_met(
                                reqs@[j],
                                total_spores_earned,
                                chain_activations,
                                current_level,
                            ),
                        forall|j: int|
                            0 <= j < i ==> #[trigger] spec_is_met(
                                reqs@[j],
                                total_spores_earned,
                                chain_activations,
                                current_level,
                            ),
                    decreases reqs.len() - i,
                {
                    proof {
                        assert(decreases_to!(*self => (*self)->All_0));
                        assert(decreases_to!(*reqs => reqs@));
                        assert(decreases_to!(reqs@ => reqs@[i as int]));
                    }
                    if !reqs[i].is_met(total_spores_earned, chain_activations, current_level) {
                        return false;
                    }
                    i = i + 1;
                }
                true
            },
            UnlockRequirement::Any(reqs) => {
                proof {
                    lemma_all_any_met(reqs@, total_spores_earned, chain_activations, current_level);
                }
                let mut i: usize = 0;
                while i < reqs.len()
                    invariant
                        0 <= i <= reqs.len(),
                        *self == UnlockRequirement::Any(*reqs),
                        any_met(reqs@, total_spores_earned, chain_activations, current_level)
                            <==> exists|j: int|
                            0 <= j < reqs@.len() && #[trigger] spec_is_met(
                                reqs@[j],
                                total_spores_earned,
                                chain_activations,
                                current_level,
                            ),
                        forall|j: int|
                            0 <= j < i ==> !#[trigger] spec_is_met(
                                reqs@[j],
                                total_spores_earned,
                                chain_activations,
                                current_level,
                            ),
                    decreases reqs.len() - i,
                {
                    proof {
                        assert(decreases_to!(*self => (*self)->Any_0));
                        assert(decreases_to!(*reqs => reqs@));
                        assert(decreases_to!(reqs@ => reqs@[i as int]));
                    }
                    if reqs[i].is_met(total_spores_earned, chain_activations, current_level) {
                        return true;
                    }
                    i = i + 1;
                }
                false
            },
        }
    }
}

/// Meeting a requirement is monotone: a player who has earned at least as many spores,
/// made at least as many chain activations and reached at least the same level still
/// meets it.
pub proof fn lemma_is_met_monotone(
    r: UnlockRequirement,
    spores: u64,
    chains: u64,
    level: usize,
    more_spores: u64,
    more_chains: u64,
    later_level: usize,
)
    requires
        spores <= more_spores,
        chains <= more_chains,
        level <= later_level,
        spec_is_met(r, spores, chains, level),
    ensures
        spec_is_met(r, more_spores, more_chains, later_level),
    decreases r,
{
    match r {
        UnlockRequirement::All(reqs) => {
            lemma_all_any_met(reqs@, spores, chains, level);
            lemma_all_any_met(reqs@, more_spores, more_chains, later_level);
            assert forall|i: int| 0 <= i < reqs@.len() implies #[trigger] spec_is_met(
                reqs@[i],
                more_spores,
                more_chains,
                later_level,
            ) by {
                assert(decreases_to!(r => r->All_0));
                assert(decreases_to!(reqs => reqs@));
                assert(decreases_to!(reqs@ => reqs@[i]));
                lemma_is_met_monotone(
                    reqs@[i],
                    spores,
                    chains,
                    level,
                    more_spores,
                    more_chains,
                    later_level,
                );
            }
        },
        UnlockRequirement::Any(reqs) => {
            lemma_all_any_met(reqs@, spores, chains, level);
            lemma_all_any_met(reqs@, more_spores, more_chains, later_level);
            let i = choose|i: int|
                0 <= i < reqs@.len() && #[trigger] spec_is_met(reqs@[i], spores, chains, level);
            assert(decreases_to!(r => r->Any_0));
            assert(decreases_to!(reqs => reqs@));
            assert(decreases_to!(reqs@ => reqs@[i]));
            lemma_is_met_monotone(
                reqs@[i],
                spores,
                chains,
                level,
                more_spores,
                more_chains,
                later_level,
            );
            assert(spec_is_met(reqs@[i], more_spores, more_chains, later_level));
        },
        _ => {},
    }
}


/// Complete definition of a mushroom type with all its properties
pub struct MushroomDefinition {
    /// Display name
    pub name: String,
    /// Description for UI
    pub description: String,
    /// Base spore production when activated, in whole spores
    pub base_production: u64,
    /// Cooldown time in milliseconds
    pub cooldown_ms: u32,
    /// Maximum activations per turn
    pub max_uses_per_turn: u32,
    /// Row in the sprite sheet for this mushroom
    pub sprite_row: usize,
    /// Activation behavior - systems perform action based on this
    pub activation_behavior: ActivationBehavior,
    /// Unlock requirements
    pub unlock_requirement: UnlockRequirement,
    /// Connection points relative to this mushroom
    pub connection_points: Vec<GridOffset>,
}

/// The mathematical content of a mushroom definition.
pub struct MushroomDefinitionView {
    pub name: Seq<char>,
    pub description: Seq<char>,
    pub base_production: u64,
    pub cooldown_ms: u32,
    pub max_uses_per_turn: u32,
    pub sprite_row: usize,
    pub activation_behavior: ActivationBehavior,
    pub unlock_requirement: UnlockRequirement,
    pub connection_points: Seq<GridOffset>,
}

impl View for MushroomDefinition {
    type V = MushroomDefinitionView;

    open spec fn view(&self) -> MushroomDefinitionView {
        MushroomDefinitionView {
            name: self.name@,
            description: self.description@,
            base_production: self.base_production,
            cooldown_ms: self.cooldown_ms,
            max_uses_per_turn: self.max_uses_per_turn,
            sprite_row: self.sprite_row,
            activation_behavior: self.activation_behavior,
            unlock_requirement: self.unlock_requirement,
            connection_points: self.connection_points@,
        }
    }
}

/// Builds a definition that is always unlocked.
fn make_definition(
    name: &str,
    description: &str,
    base_production: u64,
    cooldown_ms: u32,
    max_uses_per_turn: u32,
    sprite_row: usize,
    activation_behavior: ActivationBehavior,
    connection_points: Vec<GridOffset>,
) -> (d: MushroomDefinition)
    ensures
        d@ == (MushroomDefinitionView {
            name: name@,
            description: description@,
            base_production,
            cooldown_ms,
            max_uses_per_turn,
            sprite_row,
            activation_behavior,
            unlock_requirement: UnlockRequirement::Unconditional,
            connection_points: connection_points@,
        }),
{
    MushroomDefinition {
        name: name.to_owned(),
        description: description.to_owned(),
        base_production,
        cooldown_ms,
        max_uses_per_turn,
        sprite_row,
        activation_behavior,
        unlock_requirement: UnlockRequirement::Unconditional,
        connection_points,
    }
}

/// The definition the game gives to each mushroom type (`None` for types without one).
pub open spec fn spec_standard_definition(t: MushroomType) -> Option<MushroomDefinitionView> {
    match t {
        MushroomType::Basic => Some(
            MushroomDefinitionView {
                name: "Button"@,
                description: "10 spores."@,
                base_production: 10,
                cooldown_ms: 100,
                max_uses_per_turn: 5,
                sprite_row: 8,
                activation_behavior: ActivationBehavior::Basic,
                unlock_requirement: UnlockRequirement::Unconditional,
                connection_points: Seq::<GridOffset>::empty(),
            },
        ),
        MushroomType::Pulse => Some(
            MushroomDefinitionView {
                name: "Pulcini"@,
                description: "5 Spores. Connect 1."@,
                base_production: 5,
                cooldown_ms: 100,
                max_uses_per_turn: 2,
                sprite_row: 6,
                activation_behavior: ActivationBehavior::Basic,
                unlock_requirement: UnlockRequirement::Unconditional,
                connection_points: connection_patterns::spec_forward(),
            },
        ),
        MushroomType::Sideways => Some(
            MushroomDefinitionView {
                name: "Dicholoma"@,
                description: "2 Spores. Connect 2."@,
                base_production: 2,
                cooldown_ms: 1000,
                max_uses_per_turn: 2,
                sprite_row: 19,
                activation_behavior: ActivationBehavior::Amplifier { boost_percent: 200 },
                unlock_requirement: UnlockRequirement::Unconditional,
                connection_points: connection_patterns::spec_sideways(),
            },
        ),
        MushroomType::Fork => Some(
            MushroomDefinitionView {
                name: "Forchione"@,
                description: "2 Spores. Connect 2."@,
                base_production: 2,
                cooldown_ms: 1000,
                max_uses_per_turn: 2,
                sprite_row: 9,
                activation_behavior: ActivationBehavior::Amplifier { boost_percent: 300 },
                unlock_requirement: UnlockRequirement::Unconditional,
                connection_points: connection_patterns::spec_fork(),
            },
        ),
        MushroomType::Diagonal => Some(
            MushroomDefinitionView {
                name: "Wizard's Cap"@,
                description: "5 Spores. Connect 2."@,
                base_production: 5,
                cooldown_ms: 1000,
                max_uses_per_turn: 2,
                sprite_row: 0,
                activation_behavior: ActivationBehavior::Amplifier { boost_percent: 200 },
                unlock_requirement: UnlockRequirement::Unconditional,
                connection_points: connection_patterns::spec_diagonal_line(),
            },
        ),
        MushroomType::Threeway => Some(
            MushroomDefinitionView {
                name: "Spliitake"@,
                description: "8 spores. Connect 3."@,
                base_production: 8,
                cooldown_ms: 2000,
                max_uses_per_turn: 2,
                sprite_row: 7,
                activation_behavior: ActivationBehavior::Amplifier { boost_percent: 200 },
                unlock_requirement: UnlockRequirement::Unconditional,
                connection_points: connection_patterns::spec_threeway(),
            },
        ),
        MushroomType::Surround => Some(
            MushroomDefinitionView {
                name: "Umberella"@,
                description: "4 Spores. Connect 8."@,
                base_production: 4,
                cooldown_ms: 3000,
                max_uses_per_turn: 2,
                sprite_row: 1,
                activation_behavior: ActivationBehavior::Amplifier { boost_percent: 800 },
                unlock_requirement: UnlockRequirement::Unconditional,
                connection_points: connection_patterns::spec_all_directions(),
            },
        ),
        MushroomType::Skipper => Some(
            MushroomDefinitionView {
                name: "Portini"@,
                description: "8 Spores. Connect 1."@,
                base_production: 8,
                cooldown_ms: 1000,
                max_uses_per_turn: 2,
                sprite_row: 2,
                activation_behavior: ActivationBehavior::Basic,
                unlock_requirement: UnlockRequirement::Unconditional,
                connection_points: connection_patterns::spec_skip_forward(),
            },
        ),
        MushroomType::Deleter => Some(
            MushroomDefinitionView {
                name: "Delita"@,
                description: "Activation: produces 30 spores, but destroys 1 mushroom."@,
                base_production: 30,
                cooldown_ms: 10000,
                max_uses_per_turn: 2,
                sprite_row: 3,
                activation_behavior: ActivationBehavior::Basic,
                unlock_requirement: UnlockRequirement::Unconditional,
                connection_points: connection_patterns::spec_forward(),
            },
        ),
        MushroomType::Bomb => Some(
            MushroomDefinitionView {
                name: "Skullcap"@,
                description: "Activation: produces 100 spores, but destroys 4 mushrooms."@,
                base_production: 100,
                cooldown_ms: 10000,
                max_uses_per_turn: 2,
                sprite_row: 4,
                activation_behavior: ActivationBehavior::Basic,
                unlock_requirement: UnlockRequirement::Unconditional,
                connection_points: connection_patterns::spec_diagonal(),
            },
        ),
        MushroomType::Burst => Some(
            MushroomDefinitionView {
                name: "Puffball"@,
                description: "25 Spores."@,
                base_production: 25,
                cooldown_ms: 5000,
                max_uses_per_turn: 1,
                sprite_row: 5,
                activation_behavior: ActivationBehavior::Basic,
                unlock_requirement: UnlockRequirement::Unconditional,
                connection_points: Seq::<GridOffset>::empty(),
            },
        ),
        MushroomType::Amplifier => Some(
            MushroomDefinitionView {
                name: "Amplicus"@,
                description: "1 Spore. Connect 1. Energy Boost 1."@,
                base_production: 1,
                cooldown_ms: 1500,
                max_uses_per_turn: 1,
                sprite_row: 10,
                activation_behavior: ActivationBehavior::Amplifier { boost_percent: 150 },
                unlock_requirement: UnlockRequirement::Unconditional,
                connection_points: connection_patterns::spec_forward(),
            },
        ),
        MushroomType::FourwayAmplifier => Some(
            MushroomDefinitionView {
                name: "Enoki"@,
                description: "1 Spore. Connect 4. Energy Boost 1."@,
                base_production: 1,
                cooldown_ms: 1500,
                max_uses_per_turn: 1,
                sprite_row: 16,
                activation_behavior: ActivationBehavior::Amplifier { boost_percent: 600 },
                unlock_requirement: UnlockRequirement::Unconditional,
                connection_points: connection_patterns::spec_cardinal(),
            },
        ),
        MushroomType::Splitter => Some(
            MushroomDefinitionView {
                name: "Ink Cap"@,
                description: "5 Spores. Connect 4. Energy Boost 2."@,
                base_production: 5,
                cooldown_ms: 3000,
                max_uses_per_turn: 2,
                sprite_row: 17,
                activation_behavior: ActivationBehavior::Amplifier { boost_percent: 800 },
                unlock_requirement: UnlockRequirement::Unconditional,
                connection_points: connection_patterns::spec_cardinal(),
            },
        ),
        MushroomType::Chain => Some(
            MushroomDefinitionView {
                name: "Mumbling Truffle"@,
                description: "5 Spores. Connect 1. Rapid Fire."@,
                base_production: 5,
                cooldown_ms: 800,
                max_uses_per_turn: 5,
                sprite_row: 14,
                activation_behavior: ActivationBehavior::Basic,
                unlock_requirement: UnlockRequirement::Unconditional,
                connection_points: connection_patterns::spec_forward(),
            },
        ),
        MushroomType::Converter => Some(
            MushroomDefinitionView {
                name: "False Broccoli"@,
                description: "8 Spores. Connect 1. Fertilise 1."@,
                base_production: 8,
                cooldown_ms: 2500,
                max_uses_per_turn: 3,
                sprite_row: 18,
                activation_behavior: ActivationBehavior::Converter { convert_to: TileType::Fertile },
                unlock_requirement: UnlockRequirement::Unconditional,
                connection_points: connection_patterns::spec_forward(),
            },
        ),
        MushroomType::Knight => Some(
            MushroomDefinitionView {
                name: "Unicorn's Mane"@,
                description: "15 Spores. Connect 1."@,
                base_production: 10,
                cooldown_ms: 1800,
                max_uses_per_turn: 3,
                sprite_row: 12,
                activation_behavior: ActivationBehavior::Basic,
                unlock_requirement: UnlockRequirement::Unconditional,
                connection_points: connection_patterns::spec_knight_forward(),
            },
        ),
        MushroomType::Test => None,
    }
}

/// Connection points that reach at most two cells away along each axis.
pub open spec fn short_reach(points: Seq<GridOffset>) -> bool {
    forall|k: int|
        0 <= k < points.len() ==> -2 <= #[trigger] points[k].x <= 2 && -2 <= points[k].y <= 2
}

/// The content of a slot.
spec fn slot_view(slot: Option<MushroomDefinition>) -> Option<MushroomDefinitionView> {
    match slot {
        Some(d) => Some(d@),
        None => None,
    }
}

/// A slot whose definition, if any, has short-reaching connection points.
spec fn slot_short_reach(slot: Option<MushroomDefinition>) -> bool {
    match slot {
        Some(d) => short_reach(d.connection_points@),
        None => true,
    }
}

/// The standard definition of `t` has the given name, description, production,
/// cooldown, uses per turn, sprite row, behaviour and connection points, and is
/// unlocked from the start.
pub open spec fn defined_as(
    t: MushroomType,
    name: Seq<char>,
    description: Seq<char>,
    base_production: u64,
    cooldown_ms: u32,
    max_uses_per_turn: u32,
    sprite_row: usize,
    behavior: ActivationBehavior,
    points: Seq<GridOffset>,
) -> bool {
    &&& spec_standard_definition(t) is Some
    &&& spec_standard_definition(t)->0.name == name
    &&& spec_standard_definition(t)->0.description == description
    &&& spec_standard_definition(t)->0.base_production == base_production
    &&& spec_standard_definition(t)->0.cooldown_ms == cooldown_ms
    &&& spec_standard_definition(t)->0.max_uses_per_turn == max_uses_per_turn
    &&& spec_standard_definition(t)->0.sprite_row == sprite_row
    &&& spec_standard_definition(t)->0.activation_behavior == behavior
    &&& spec_standard_definition(t)->0.unlock_requirement == UnlockRequirement::Unconditional
    &&& spec_standard_definition(t)->0.connection_points == points
}

/// The game's mushrooms: their names and descriptions, the spores each produces, how
/// long it rests and how often it may act in a turn, the row of its sprite, how it
/// behaves (the ones with an energy boost, and the connectors, amplify the energy
/// they pass on by the given percentage; the False Broccoli fertilises; the rest
/// only produce spores) and the cells it connects to (the shapes of
/// `connection_patterns`). Every one is unlocked from the start, and the test type
/// has no definition.
pub proof fn lemma_standard_definitions()
    ensures
        defined_as(
            MushroomType::Basic,
            "Button"@,
            "10 spores."@,
            10,
            100,
            5,
            8,
            ActivationBehavior::Basic,
            Seq::empty(),
        ),
        defined_as(
            MushroomType::Pulse,
            "Pulcini"@,
            "5 Spores. Connect 1."@,
            5,
            100,
            2,
            6,
            ActivationBehavior::Basic,
            connection_patterns::spec_forward(),
        ),
        defined_as(
            MushroomType::Sideways,
            "Dicholoma"@,
            "2 Spores. Connect 2."@,
            2,
            1000,
            2,
            19,
            ActivationBehavior::Amplifier { boost_percent: 200 },
            connection_patterns::spec_sideways(),
        ),
        defined_as(
            MushroomType::Fork,
            "Forchione"@,
            "2 Spores. Connect 2."@,
            2,
            1000,
            2,
            9,
            ActivationBehavior::Amplifier { boost_percent: 300 },
            connection_patterns::spec_fork(),
        ),
        defined_as(
            MushroomType::Diagonal,
            "Wizard's Cap"@,
            "5 Spores. Connect 2."@,
            5,
            1000,
            2,
            0,
            ActivationBehavior::Amplifier { boost_percent: 200 },
            connection_patterns::spec_diagonal_line(),
        ),
        defined_as(
            MushroomType::Threeway,
            "Spliitake"@,
            "8 spores. Connect 3."@,
            8,
            2000,
            2,
            7,
            ActivationBehavior::Amplifier { boost_percent: 200 },
            connection_patterns::spec_threeway(),
        ),
        defined_as(
            MushroomType::Surround,
            "Umberella"@,
            "4 Spores. Connect 8."@,
            4,
            3000,
            2,
            1,
            ActivationBehavior::Amplifier { boost_percent: 800 },
            connection_patterns::spec_all_directions(),
        ),
        defined_as(
            MushroomType::Skipper,
            "Portini"@,
            "8 Spores. Connect 1."@,
            8,
            1000,
            2,
            2,
            ActivationBehavior::Basic,
            connection_patterns::spec_skip_forward(),
        ),
        defined_as(
            MushroomType::Deleter,
            "Delita"@,
            "Activation: produces 30 spores, but destroys 1 mushroom."@,
            30,
            10000,
            2,
            3,
            ActivationBehavior::Basic,
            connection_patterns::spec_forward(),
        ),
        defined_as(
            MushroomType::Bomb,
            "Skullcap"@,
            "Activation: produces 100 spores, but destroys 4 mushrooms."@,
            100,
            10000,
            2,
            4,
            ActivationBehavior::Basic,
            connection_patterns::spec_diagonal(),
        ),
        defined_as(
            MushroomType::Burst,
            "Puffball"@,
            "25 Spores."@,
            25,
            5000,
            1,
            5,
            ActivationBehavior::Basic,
            Seq::empty(),
        ),
        defined_as(
            MushroomType::Amplifier,
            "Amplicus"@,
            "1 Spore. Connect 1. Energy Boost 1."@,
            1,
            1500,
            1,
            10,
            ActivationBehavior::Amplifier { boost_percent: 150 },
            connection_patterns::spec_forward(),
        ),
        defined_as(
            MushroomType::FourwayAmplifier,
            "Enoki"@,
            "1 Spore. Connect 4. Energy Boost 1."@,
            1,
            1500,
            1,
            16,
            ActivationBehavior::Amplifier { boost_percent: 600 },
            connection_patterns::spec_cardinal(),
        ),
        defined_as(
            MushroomType::Splitter,
            "Ink Cap"@,
            "5 Spores. Connect 4. Energy Boost 2."@,
            5,
            3000,
            2,
            17,
            ActivationBehavior::Amplifier { boost_percent: 800 },
            connection_patterns::spec_cardinal(),
        ),
        defined_as(
            MushroomType::Chain,
            "Mumbling Truffle"@,
            "5 Spores. Connect 1. Rapid Fire."@,
            5,
            800,
            5,
            14,
            ActivationBehavior::Basic,
            connection_patterns::spec_forward(),
        ),
        defined_as(
            MushroomType::Converter,
            "False Broccoli"@,
            "8 Spores. Connect 1. Fertilise 1."@,
            8,
            2500,
            3,
            18,
            ActivationBehavior::Converter { convert_to: TileType::Fertile },
            connection_patterns::spec_forward(),
        ),
        defined_as(
            MushroomType::Knight,
            "Unicorn's Mane"@,
            "15 Spores. Connect 1."@,
            10,
            1800,
            3,
            12,
            ActivationBehavior::Basic,
            connection_patterns::spec_knight_forward(),
        ),
        spec_standard_definition(MushroomType::Test) is None,
{
}

/// Every standard definition connects to cells at most two steps away.
pub proof fn lemma_standard_short_reach(t: MushroomType)
    ensures
        match spec_standard_definition(t) {
            Some(d) => short_reach(d.connection_points),
            None => true,
        },
{
    assert(short_reach(connection_patterns::spec_cardinal()));
    assert(short_reach(connection_patterns::spec_diagonal()));
    assert(short_reach(connection_patterns::spec_all_directions()));
    assert(short_reach(connection_patterns::spec_sideways()));
    assert(short_reach(connection_patterns::spec_fork()));
    assert(short_reach(connection_patterns::spec_threeway()));
    assert(short_reach(connection_patterns::spec_diagonal_line()));
    assert(short_reach(connection_patterns::spec_forward()));
    assert(short_reach(connection_patterns::spec_skip_forward()));
    assert(short_reach(connection_patterns::spec_knight_forward()));
    assert(short_reach(Seq::<GridOffset>::empty()));
}

/// Resource containing all mushroom definitions, one slot per mushroom type
pub struct MushroomDefinitions {
    definitions: Vec<Option<MushroomDefinition>>,
}

impl MushroomDefinitions {
    #[verifier::type_invariant]
    spec fn one_slot_per_type(&self) -> bool {
        &&& self.definitions.len() == MUSHROOM_TYPE_COUNT
        &&& forall|i: int|
            0 <= i < self.definitions.len() ==> slot_short_reach(#[trigger] self.definitions@[i])
    }

    /// The definition of a type, if there is one.
    pub closed spec fn spec_get(&self, t: MushroomType) -> Option<MushroomDefinitionView> {
        match self.definitions@[spec_type_index(t) as int] {
            Some(d) => Some(d@),
            None => None,
        }
    }

    /// Get a mushroom definition
    pub fn get(&self, mushroom_type: MushroomType) -> (r: Option<&MushroomDefinition>)
        ensures
            match r {
                Some(d) => self.spec_get(mushroom_type) == Some(d@) && short_reach(
                    d.connection_points@,
                ),
                None => self.spec_get(mushroom_type) is None,
            },
    {
        proof {
            use_type_invariant(self);
            assert(slot_short_reach(self.definitions@[spec_type_index(mushroom_type) as int]));
        }
        self.definitions[mushroom_type.type_index()].as_ref()
    }

    /// Get all mushroom types, in declaration order
    pub fn all_types(&self) -> (r: Vec<MushroomType>)
        ensures
            forall|t: MushroomType| r@.contains(t) <==> self.spec_get(t) is Some,
            forall|i: int, j: int|
                0 <= i < j < r@.len() ==> spec_type_index(r@[i]) < spec_type_index(r@[j]),
            r@.no_duplicates(),
    {
        proof {
            use_type_invariant(self);
        }
        let mut r: Vec<MushroomType> = Vec::new();
        let mut i: usize = 0;
        while i < MUSHROOM_TYPE_COUNT
            invariant
                0 <= i <= MUSHROOM_TYPE_COUNT,
                self.definitions.len() == MUSHROOM_TYPE_COUNT,
                forall|t: MushroomType|
                    r@.contains(t) <==> (spec_type_index(t) < i && self.spec_get(t) is Some),
                forall|k: int| 0 <= k < r@.len() ==> spec_type_index(r@[k]) < i,
                forall|k: int, l: int|
                    0 <= k < l < r@.len() ==> spec_type_index(r@[k]) < spec_type_index(r@[l]),
            decreases MUSHROOM_TYPE_COUNT - i,
        {
            let t = MushroomType::from_type_index(i);
            proof {
                lemma_type_index_bijective(t, i);
            }
            let ghost old_r = r@;
            let present = self.definitions[i].is_some();
            if present {
                r.push(t);
            }
            proof {
                assert(present == self.spec_get(t) is Some);
                assert(present ==> r@ == old_r.push(t));
                assert(!present ==> r@ == old_r);
                assert forall|u: MushroomType|
                    r@.contains(u) <==> (spec_type_index(u) < i + 1 && self.spec_get(u) is Some) by {
                    lemma_type_index_bijective(u, i);
                    if spec_type_index(u) == i {
                        assert(u == t);
                    }
                    if present {
                        assert(r@.contains(u) <==> (old_r.contains(u) || u == t)) by {
                            if r@.contains(u) {
                                let k = choose|k: int| 0 <= k < r@.len() && r@[k] == u;
                                if k < old_r.len() {
                                    assert(old_r[k] == u);
                                }
                            }
                            if old_r.contains(u) {
                                let k = choose|k: int| 0 <= k < old_r.len() && old_r[k] == u;
                                assert(r@[k] == u);
                            }
                            if u == t {
                                assert(r@[r@.len() - 1] == u);
                            }
                        }
                    }
                }
            }
            i = i + 1;
        }
        proof {
            assert forall|k: int, l: int| 0 <= k < l < r@.len() implies r@[k] != r@[l] by {
                assert(spec_type_index(r@[k]) < spec_type_index(r@[l]));
            }
            assert forall|t: MushroomType| r@.contains(t) <==> self.spec_get(t) is Some by {
                lemma_type_index_bijective(t, 0);
            }
        }
        r
    }

    /// Check if a mushroom type is unlocked for a player who has earned
    /// `total_spores_earned` whole spores, made `chain_activations` chain activations
    /// and reached level `current_level`; a type without a definition is locked.
    pub fn is_unlocked(
        &self,
        mushroom_type: MushroomType,
        total_spores_earned: u64,
        chain_activations: u64,
        current_level: usize,
    ) -> (r: bool)
        ensures
            r == match self.spec_get(mushroom_type) {
                Some(d) => spec_is_met(
                    d.unlock_requirement,
                    total_spores_earned,
                    chain_activations,
                    current_level,
                ),
                None => false,
            },
    {
        match self.get(mushroom_type) {
            Some(def) => def.unlock_requirement.is_met(
                total_spores_earned,
                chain_activations,
                current_level,
            ),
            None => false,
        }
    }
}

impl Default for MushroomDefinitions {
    fn default() -> (r: Self)
        ensures
            forall|t: MushroomType| r.spec_get(t) is None,
    {
        let mut definitions: Vec<Option<MushroomDefinition>> = Vec::new();
        let mut i: usize = 0;
        while i < MUSHROOM_TYPE_COUNT
            invariant
                0 <= i <= MUSHROOM_TYPE_COUNT,
                definitions.len() == i,
                forall|k: int| 0 <= k < i ==> definitions@[k] is None,
            decreases MUSHROOM_TYPE_COUNT - i,
        {
            definitions.push(None);
            i = i + 1;
        }
        let r = MushroomDefinitions { definitions };
        proof {
            assert forall|t: MushroomType| r.spec_get(t) is None by {
                lemma_type_index_bijective(t, 0);
            }
        }
        r
    }
}

/// Initialize all mushroom definitions at startup
pub fn initialize_definitions(definitions: &mut MushroomDefinitions)
    ensures
        forall|t: MushroomType| #[trigger] final(definitions).spec_get(t) == spec_standard_definition(t),
{
    let mut slots: Vec<Option<MushroomDefinition>> = Vec::new();
    let mut i: usize = 0;
    while i < MUSHROOM_TYPE_COUNT
        invariant
            0 <= i <= MUSHROOM_TYPE_COUNT,
            slots.len() == i,
            forall|k: int| 0 <= k < i ==> slots@[k] is None,
        decreases MUSHROOM_TYPE_COUNT - i,
    {
        slots.push(None);
        i = i + 1;
    }
    let def = make_definition(
        "Button",
        "10 spores.",
        10,
        100,
        5,
        8,
        ActivationBehavior::Basic,
        Vec::new(),
    );
    slots.set(MushroomType::Basic.type_index(), Some(def));
    let def = make_definition(
        "Pulcini",
        "5 Spores. Connect 1.",
        5,
        100,
        2,
        6,
        ActivationBehavior::Basic,
        connection_patterns::forward(),
    );
    slots.set(MushroomType::Pulse.type_index(), Some(def));
    let def = make_definition(
        "Dicholoma",
        "2 Spores. Connect 2.",
        2,
        1000,
        2,
        19,
        ActivationBehavior::Amplifier { boost_percent: 200 },
        connection_patterns::sideways(),
    );
    slots.set(MushroomType::Sideways.type_index(), Some(def));
    let def = make_definition(
        "Forchione",
        "2 Spores. Connect 2.",
        2,
        1000,
        2,
        9,
        ActivationBehavior::Amplifier { boost_percent: 300 },
        connection_patterns::fork(),
    );
    slots.set(MushroomType::Fork.type_index(), Some(def));
    let def = make_definition(
        "Wizard's Cap",
        "5 Spores. Connect 2.",
        5,
        1000,
        2,
        0,
        ActivationBehavior::Amplifier { boost_percent: 200 },
        connection_patterns::diagonal_line(),
    );
    slots.set(MushroomType::Diagonal.type_index(), Some(def));
    let def = make_definition(
        "Spliitake",
        "8 spores. Connect 3.",
        8,
        2000,
        2,
        7,
        ActivationBehavior::Amplifier { boost_percent: 200 },
        connection_patterns::threeway(),
    );
    slots.set(MushroomType::Threeway.type_index(), Some(def));
    let def = make_definition(
        "Umberella",
        "4 Spores. Connect 8.",
        4,
        3000,
        2,
        1,
        ActivationBehavior::Amplifier { boost_percent: 800 },
        connection_patterns::all_directions(),
    );
    slots.set(MushroomType::Surround.type_index(), Some(def));
    let def = make_definition(
        "Portini",
        "8 Spores. Connect 1.",
        8,
        1000,
        2,
        2,
        ActivationBehavior::Basic,
        connection_patterns::skip_forward(),
    );
    slots.set(MushroomType::Skipper.type_index(), Some(def));
    let def = make_definition(
        "Delita",
        "Activation: produces 30 spores, but destroys 1 mushroom.",
        30,
        10000,
        2,
        3,
        ActivationBehavior::Basic,
        connection_patterns::forward(),
    );
    slots.set(MushroomType::Deleter.type_index(), Some(def));
    let def = make_definition(
        "Skullcap",
        "Activation: produces 100 spores, but destroys 4 mushrooms.",
        100,
        10000,
        2,
        4,
        ActivationBehavior::Basic,
        connection_patterns::diagonal(),
    );
    slots.set(MushroomType::Bomb.type_index(), Some(def));
    let def = make_definition(
        "Puffball",
        "25 Spores.",
        25,
        5000,
        1,
        5,
        ActivationBehavior::Basic,
        Vec::new(),
    );
    slots.set(MushroomType::Burst.type_index(), Some(def));
    let def = make_definition(
        "Amplicus",
        "1 Spore. Connect 1. Energy Boost 1.",
        1,
        1500,
        1,
        10,
        ActivationBehavior::Amplifier { boost_percent: 150 },
        connection_patterns::forward(),
    );
    slots.set(MushroomType::Amplifier.type_index(), Some(def));
    let def = make_definition(
        "Enoki",
        "1 Spore. Connect 4. Energy Boost 1.",
        1,
        1500,
        1,
        16,
        ActivationBehavior::Amplifier { boost_percent: 600 },
        connection_patterns::cardinal(),
    );
    slots.set(MushroomType::FourwayAmplifier.type_index(), Some(def));
    let def = make_definition(
        "Ink Cap",
        "5 Spores. Connect 4. Energy Boost 2.",
        5,
        3000,
        2,
        17,
        ActivationBehavior::Amplifier { boost_percent: 800 },
        connection_patterns::cardinal(),
    );
    slots.set(MushroomType::Splitter.type_index(), Some(def));
    let def = make_definition(
        "Mumbling Truffle",
        "5 Spores. Connect 1. Rapid Fire.",
        5,
        800,
        5,
        14,
        ActivationBehavior::Basic,
        connection_patterns::forward(),
    );
    slots.set(MushroomType::Chain.type_index(), Some(def));
    let def = make_definition(
        "False Broccoli",
        "8 Spores. Connect 1. Fertilise 1.",
        8,
        2500,
        3,
        18,
        ActivationBehavior::Converter { convert_to: TileType::Fertile },
        connection_patterns::forward(),
    );
    slots.set(MushroomType::Converter.type_index(), Some(def));
    let def = make_definition(
        "Unicorn's Mane",
        "15 Spores. Connect 1.",
        10,
        1800,
        3,
        12,
        ActivationBehavior::Basic,
        connection_patterns::knight_forward(),
    );
    slots.set(MushroomType::Knight.type_index(), Some(def));
    proof {
        assert forall|t: MushroomType|
            #[trigger] slot_view(slots@[spec_type_index(t) as int]) == spec_standard_definition(
                t,
            ) by {
            lemma_type_index_bijective(t, 0);
        }
        assert forall|i: int| 0 <= i < slots@.len() implies slot_short_reach(
            #[trigger] slots@[i],
        ) by {
            let t = spec_type_at(i as usize);
            lemma_type_index_bijective(t, i as usize);
            lemma_standard_short_reach(t);
            assert(slot_view(slots@[spec_type_index(t) as int]) == spec_standard_definition(t));
        }
    }
    let new_definitions = MushroomDefinitions { definitions: slots };
    proof {
        assert forall|t: MushroomType| #[trigger] new_definitions.spec_get(t) == spec_standard_definition(t) by {
            lemma_type_index_bijective(t, 0);
        }
    }
    *definitions = new_definitions;
}

} // verus!

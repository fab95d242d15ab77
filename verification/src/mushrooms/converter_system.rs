//! End-of-turn converter system for mushrooms: converters that activated during the
//! turn turn tiles around them into another tile type.

use vstd::prelude::*;

use rand::seq::IndexedRandom;

use crate::play_field::field::{set_cell, PlayField};
use crate::play_field::position::GridPosition;
use crate::play_field::tiles::TileType;

verus! {

/// Whether `t` occurs in `allowed`.
pub open spec fn listed(allowed: Seq<TileType>, t: TileType) -> bool {
    exists|i: int| 0 <= i < allowed.len() && allowed[i] == t
}

/// Whether the tile at `p` may be converted to `target`: it lies on the field, is of
/// another type, and is of an allowed type if a list of allowed types is given.
pub open spec fn convertible(
    field: PlayField,
    p: GridPosition,
    target: TileType,
    allowed: Option<Seq<TileType>>,
) -> bool {
    &&& field.spec_contains(p)
    &&& field.tile_at(p) != target
    &&& match allowed {
        Some(a) => listed(a, field.tile_at(p)),
        None => true,
    }
}

/// The convertible tiles of row `dy` of the square around `origin`, for the first
/// `n` columns from `dx = -radius` on; the origin itself is skipped.
pub open spec fn row_convertible(
    field: PlayField,
    origin: GridPosition,
    target: TileType,
    allowed: Option<Seq<TileType>>,
    radius: int,
    dy: int,
    n: int,
) -> Seq<GridPosition>
    decreases n,
{
    if n <= 0 {
        Seq::empty()
    } else {
        let before = row_convertible(field, origin, target, allowed, radius, dy, n - 1);
        let dx = -radius + n - 1;
        let p = GridPosition { x: (origin.x + dx) as i32, y: (origin.y + dy) as i32 };
        if !(dx == 0 && dy == 0) && convertible(field, p, target, allowed) {
            before.push(p)
        } else {
            before
        }
    }
}

/// The convertible tiles of the first `m` rows of the square of the given radius
/// around `origin`, row by row from `dy = -radius` on.
pub open spec fn square_convertible(
    field: PlayField,
    origin: GridPosition,
    target: TileType,
    allowed: Option<Seq<TileType>>,
    radius: int,
    m: int,
) -> Seq<GridPosition>
    decreases m,
{
    if m <= 0 {
        Seq::empty()
    } else {
        square_convertible(field, origin, target, allowed, radius, m - 1) + row_convertible(
            field,
            origin,
            target,
            allowed,
            radius,
            -radius + m - 1,
            2 * radius + 1,
        )
    }
}

/// The square of the given radius around `origin` names cells.
pub open spec fn square_fits(origin: GridPosition, radius: i32) -> bool {
    &&& i32::MIN < radius < i32::MAX
    &&& i32::MIN <= origin.x - radius
    &&& origin.x + radius <= i32::MAX
    &&& i32::MIN <= origin.y - radius
    &&& origin.y + radius <= i32::MAX
}

/// Whether the tile type occurs in the list
fn contains_tile(allowed: &Vec<TileType>, t: TileType) -> (r: bool)
    ensures
        r == listed(allowed@, t),
{
    let mut i: usize = 0;
    while i < allowed.len()
        invariant
            0 <= i <= allowed@.len(),
            forall|j: int| 0 <= j < i ==> allowed@[j] != t,
        decreases allowed.len() - i,
    {
        if allowed[i] == t {
            return true;
        }
        i = i + 1;
    }
    false
}

/// Find all tiles that can be converted: the tiles of the square of the given radius
/// around `origin`, row by row, except the origin itself, that lie on the field, are
/// not of the target type yet, and are of an allowed type (any type if no list is
/// given)
pub fn find_convertible_tiles(
    origin: GridPosition,
    target_type: TileType,
    allowed_sources: Option<&Vec<TileType>>,
    radius: i32,
    play_field: &PlayField,
) -> (convertible: Vec<GridPosition>)
    requires
        play_field.wf(),
        square_fits(origin, radius),
    ensures
        convertible@ == square_convertible(
            *play_field,
            origin,
            target_type,
            match allowed_sources {
                Some(a) => Some(a@),
                None => None,
            },
            radius as int,
            if radius >= 0 {
                2 * radius + 1
            } else {
                0
            },
        ),
{
    let ghost allowed = match allowed_sources {
        Some(a) => Some(a@),
        None => None::<Seq<TileType>>,
    };
    let ghost r = radius as int;
    let mut convertible: Vec<GridPosition> = Vec::new();
    // Search in a square radius around the origin
    let mut dy: i32 = -radius;
    while dy <= radius
        invariant
            play_field.wf(),
            square_fits(origin, radius),
            r == radius,
            -r <= dy || r < 0,
            r >= 0 ==> dy <= r + 1,
            r < 0 ==> dy == -r,
            convertible@ == square_convertible(
                *play_field,
                origin,
                target_type,
                allowed,
                r,
                if r >= 0 {
                    dy + r
                } else {
                    0
                },
            ),
            allowed == match allowed_sources {
                Some(a) => Some(a@),
                None => None::<Seq<TileType>>,
            },
        decreases radius - dy + 1,
    {
        let ghost row_start = convertible@;
        let mut dx: i32 = -radius;
        while dx <= radius
            invariant
                play_field.wf(),
                square_fits(origin, radius),
                r == radius,
                r >= 0,
                -r <= dy <= r,
                -r <= dx <= r + 1,
                convertible@ == row_start + row_convertible(
                    *play_field,
                    origin,
                    target_type,
                    allowed,
                    r,
                    dy as int,
                    dx + r,
                ),
                allowed == match allowed_sources {
                    Some(a) => Some(a@),
                    None => None::<Seq<TileType>>,
                },
            decreases radius - dx + 1,
        {
            let ghost before = convertible@;
            // Skip the origin tile
            if !(dx == 0 && dy == 0) {
                let check_pos = GridPosition::new(origin.x + dx, origin.y + dy);
                // Check if position is valid, and get the current tile type
                if let Some(current_type) = play_field.get_tile(check_pos) {
                    // Skip if already the target type
                    if current_type != target_type {
                        // Check if this tile type can be converted
                        let can_convert = match allowed_sources {
                            Some(allowed_list) => contains_tile(allowed_list, current_type),
                            None => true,
                        };
                        if can_convert {
                            convertible.push(check_pos);
                        }
                    }
                }
            }
            proof {
                assert(convertible@ =~= row_start + row_convertible(
                    *play_field,
                    origin,
                    target_type,
                    allowed,
                    r,
                    dy as int,
                    dx + r + 1,
                ));
            }
            dx = dx + 1;
        }
        proof {
            assert(convertible@ =~= square_convertible(
                *play_field,
                origin,
                target_type,
                allowed,
                r,
                dy + r + 1,
            ));
        }
        dy = dy + 1;
    }
    convertible
}

/// Up to `amount` tiles drawn at random from `candidates` by `rand`'s
/// `IndexedRandom::choose_multiple`, with the thread's random generator: as many as
/// asked for or as there are, taken at distinct positions of the list. Which ones,
/// and in which order, is left unsaid: it rests on chance
#[verifier::external_body]
fn choose_tiles(candidates: &Vec<GridPosition>, amount: usize) -> (r: Vec<GridPosition>)
    ensures
        r@.len() == vstd::math::min(amount as int, candidates@.len() as int),
        exists|idx: Seq<int>|
            #![trigger idx.no_duplicates()]
            idx.len() == r@.len() && idx.no_duplicates() && forall|i: int|
                0 <= i < idx.len() ==> 0 <= #[trigger] idx[i] < candidates@.len()
                    && r@[i] == candidates@[idx[i]],
{
    candidates.choose_multiple(&mut rand::rng(), amount).cloned().collect()
}

/// How a converter mushroom changes the terrain: how many tiles of which types
/// within which radius it converts, and into what.
#[derive(Debug)]
pub struct ConversionRule {
    pub convert_to: TileType,
    pub convert_count: u32,
    pub can_convert_from: Option<Vec<TileType>>,
    pub search_radius: i32,
}

/// A converter on the field: where it stands, how often it activated this turn and
/// its rule.
#[derive(Debug)]
pub struct ConverterOnField {
    pub position: GridPosition,
    pub activations_this_turn: u32,
    pub rule: ConversionRule,
}

/// Tiles after a list of conversions is applied in order.
pub open spec fn apply_conversions(
    tiles: Seq<TileType>,
    w: int,
    h: int,
    conversions: Seq<(GridPosition, TileType)>,
) -> Seq<TileType>
    decreases conversions.len(),
{
    if conversions.len() == 0 {
        tiles
    } else {
        let last = conversions.last();
        set_cell(apply_conversions(tiles, w, h, conversions.drop_last()), w, h, last.0, last.1)
    }
}

/// The tile types a rule may convert from, if it restricts them.
pub open spec fn rule_allowed(rule: ConversionRule) -> Option<Seq<TileType>> {
    match rule.can_convert_from {
        Some(a) => Some(a@),
        None => None,
    }
}

/// A conversion some converter that activated this turn may make: a tile it can
/// convert, into its target type.
pub open spec fn conversion_allowed(
    field: PlayField,
    converters: Seq<ConverterOnField>,
    c: (GridPosition, TileType),
) -> bool {
    exists|j: int|
        0 <= j < converters.len() && #[trigger] converters[j].activations_this_turn > 0
            && c.1 == converters[j].rule.convert_to && convertible(
            field,
            c.0,
            converters[j].rule.convert_to,
            rule_allowed(converters[j].rule),
        )
}

/// The tiles a converter on the field can convert, in the order of the search.
pub open spec fn rule_candidates(field: PlayField, c: ConverterOnField) -> Seq<GridPosition> {
    square_convertible(
        field,
        c.position,
        c.rule.convert_to,
        rule_allowed(c.rule),
        c.rule.search_radius as int,
        if c.rule.search_radius >= 0 {
            2 * c.rule.search_radius + 1
        } else {
            0
        },
    )
}

/// How many tiles a converter converts: as many as its count allows and as it can
/// convert, if it activated this turn; none otherwise.
pub open spec fn converter_quota(field: PlayField, c: ConverterOnField) -> int {
    if c.activations_this_turn > 0 {
        vstd::math::min(c.rule.convert_count as int, rule_candidates(field, c).len() as int)
    } else {
        0
    }
}

/// How many tiles the first `n` converters convert together.
pub open spec fn conversion_count(field: PlayField, cs: Seq<ConverterOnField>, n: int) -> int
    decreases n,
{
    if n <= 0 {
        0
    } else {
        conversion_count(field, cs, n - 1) + converter_quota(field, cs[n - 1])
    }
}

/// A converter's share of the conversions: its quota of tiles, each converted into
/// its target type, taken at distinct places of the list of tiles it can convert.
pub open spec fn segment_drawn(
    field: PlayField,
    c: ConverterOnField,
    seg: Seq<(GridPosition, TileType)>,
) -> bool {
    &&& seg.len() == converter_quota(field, c)
    &&& forall|i: int| 0 <= i < seg.len() ==> (#[trigger] seg[i]).1 == c.rule.convert_to
    &&& exists|idx: Seq<int>|
        #![trigger idx.no_duplicates()]
        idx.len() == seg.len() && idx.no_duplicates() && forall|i: int|
            0 <= i < idx.len() ==> 0 <= #[trigger] idx[i] < rule_candidates(field, c).len()
                && seg[i].0 == rule_candidates(field, c)[idx[i]]
}

/// The conversion counts grow with the number of converters.
proof fn lemma_conversion_count_grows(field: PlayField, cs: Seq<ConverterOnField>, a: int, b: int)
    requires
        0 <= a <= b,
    ensures
        0 <= conversion_count(field, cs, a) <= conversion_count(field, cs, b),
    decreases b,
{
    if a < b {
        lemma_conversion_count_grows(field, cs, a, b - 1);
    }
    if b > 0 {
        lemma_conversion_count_grows(field, cs, 0, b - 1);
    }
}

/// Process all converter mushrooms at the end of turn: each converter that activated
/// this turn picks at random up to its count of the tiles it can convert, and all
/// picked tiles are then converted in order. Returns the conversions made
pub fn process_end_of_turn_conversions(
    play_field: &mut PlayField,
    converters: &[ConverterOnField],
) -> (conversions: Vec<(GridPosition, TileType)>)
    requires
        old(play_field).wf(),
        forall|j: int|
            0 <= j < converters@.len() ==> square_fits(
                #[trigger] converters@[j].position,
                converters@[j].rule.search_radius,
            ),
    ensures
        final(play_field).wf(),
        final(play_field).tiles@ == apply_conversions(
            old(play_field).tiles@,
            old(play_field).width as int,
            old(play_field).height as int,
            conversions@,
        ),
        forall|i: int|
            0 <= i < conversions@.len() ==> conversion_allowed(
                *old(play_field),
                converters@,
                #[trigger] conversions@[i],
            ),
        conversions@.len() == conversion_count(
            *old(play_field),
            converters@,
            converters@.len() as int,
        ),
        forall|j: int|
            0 <= j < converters@.len() ==> segment_drawn(
                *old(play_field),
                #[trigger] converters@[j],
                conversions@.subrange(
                    conversion_count(*old(play_field), converters@, j),
                    conversion_count(*old(play_field), converters@, j + 1),
                ),
            ),
        final(play_field).entities == old(play_field).entities,
        final(play_field).connections == old(play_field).connections,
        final(play_field).width == old(play_field).width,
        final(play_field).height == old(play_field).height,
{
    let mut conversions_to_apply: Vec<(GridPosition, TileType)> = Vec::new();
    // First, collect all conversions to apply
    let mut j: usize = 0;
    while j < converters.len()
        invariant
            0 <= j <= converters@.len(),
            play_field.wf(),
            *play_field == *old(play_field),
            forall|k: int|
                0 <= k < converters@.len() ==> square_fits(
                    #[trigger] converters@[k].position,
                    converters@[k].rule.search_radius,
                ),
            forall|i: int|
                0 <= i < conversions_to_apply@.len() ==> conversion_allowed(
                    *old(play_field),
                    converters@,
                    #[trigger] conversions_to_apply@[i],
                ),
            conversions_to_apply@.len() == conversion_count(*old(play_field), converters@, j as int),
            forall|k: int|
                0 <= k < j ==> segment_drawn(
                    *old(play_field),
                    #[trigger] converters@[k],
                    conversions_to_apply@.subrange(
                        conversion_count(*old(play_field), converters@, k),
                        conversion_count(*old(play_field), converters@, k + 1),
                    ),
                ),
        decreases converters.len() - j,
    {
        let converter = &converters[j];
        let ghost before = conversions_to_apply@;
        proof {
            assert forall|k: int| 0 <= k < j implies #[trigger] conversion_count(
                *old(play_field),
                converters@,
                k + 1,
            ) <= before.len() by {
                lemma_conversion_count_grows(*old(play_field), converters@, k + 1, j as int);
            }
        }
        // Skip if mushroom didn't activate this turn
        if converter.activations_this_turn > 0 {
            let rule = &converter.rule;
            let allowed = match &rule.can_convert_from {
                Some(a) => Some(a),
                None => None,
            };
            // Find tiles to convert
            let convertible_tiles = find_convertible_tiles(
                converter.position,
                rule.convert_to,
                allowed,
                rule.search_radius,
                play_field,
            );
            proof {
                lemma_square_convertible_members(
                    *play_field,
                    converter.position,
                    rule.convert_to,
                    rule_allowed(*rule),
                    rule.search_radius as int,
                    if rule.search_radius >= 0 {
                        2 * rule.search_radius + 1
                    } else {
                        0
                    },
                );
            }
            // Select random tiles up to convert_count
            let tiles_to_convert = choose_tiles(&convertible_tiles, rule.convert_count as usize);
            proof {
                assert forall|q: int| 0 <= q < tiles_to_convert@.len() implies convertible(
                    *old(play_field),
                    #[trigger] tiles_to_convert@[q],
                    converter.rule.convert_to,
                    rule_allowed(converter.rule),
                ) by {
                    let idx = choose|idx: Seq<int>|
                        #![trigger idx.no_duplicates()]
                        idx.len() == tiles_to_convert@.len() && idx.no_duplicates() && forall|
                            i: int,
                        |
                            0 <= i < idx.len() ==> 0 <= #[trigger] idx[i]
                                < convertible_tiles@.len() && tiles_to_convert@[i]
                                == convertible_tiles@[idx[i]];
                    assert(0 <= idx[q] < convertible_tiles@.len());
                }
            }
            let mut t: usize = 0;
            while t < tiles_to_convert.len()
                invariant
                    0 <= t <= tiles_to_convert@.len(),
                    conversions_to_apply@.len() == before.len() + t,
                    conversions_to_apply@.take(before.len() as int) == before,
                    forall|i: int|
                        0 <= i < t ==> #[trigger] conversions_to_apply@[before.len() + i] == (
                        tiles_to_convert@[i],
                        converter.rule.convert_to,
                    ),
                    *play_field == *old(play_field),
                    0 <= j < converters@.len(),
                    converter == converters@[j as int],
                    *rule == converter.rule,
                    converter.activations_this_turn > 0,
                    forall|q: int|
                        0 <= q < tiles_to_convert@.len() ==> convertible(
                            *old(play_field),
                            #[trigger] tiles_to_convert@[q],
                            converter.rule.convert_to,
                            rule_allowed(converter.rule),
                        ),
                    forall|i: int|
                        0 <= i < conversions_to_apply@.len() ==> conversion_allowed(
                            *old(play_field),
                            converters@,
                            #[trigger] conversions_to_apply@[i],
                        ),
                decreases tiles_to_convert.len() - t,
            {
                let c = (tiles_to_convert[t], rule.convert_to);
                proof {
                    assert(convertible(
                        *old(play_field),
                        tiles_to_convert@[t as int],
                        converter.rule.convert_to,
                        rule_allowed(converter.rule),
                    ));
                    assert(converters@[j as int].activations_this_turn > 0);
                    assert(c.1 == converters@[j as int].rule.convert_to);
                    assert(convertible(
                        *old(play_field),
                        c.0,
                        converters@[j as int].rule.convert_to,
                        rule_allowed(converters@[j as int].rule),
                    ));
                    assert(conversion_allowed(*old(play_field), converters@, c));
                }
                let ghost mid = conversions_to_apply@;
                conversions_to_apply.push(c);
                proof {
                    assert(conversions_to_apply@.take(before.len() as int) =~= mid.take(
                        before.len() as int,
                    ));
                    assert forall|i: int| 0 <= i < t + 1 implies #[trigger] conversions_to_apply@[before.len()
                        + i] == (tiles_to_convert@[i], converter.rule.convert_to) by {
                        if i < t {
                            assert(conversions_to_apply@[before.len() + i] == mid[before.len()
                                + i]);
                        }
                    }
                }
                t = t + 1;
            }
            proof {
                let seg = conversions_to_apply@.subrange(
                    before.len() as int,
                    conversions_to_apply@.len() as int,
                );
                assert(rule_candidates(*old(play_field), *converter) == convertible_tiles@);
                let idx = choose|idx: Seq<int>|
                    #![trigger idx.no_duplicates()]
                    idx.len() == tiles_to_convert@.len() && idx.no_duplicates() && forall|i: int|
                        0 <= i < idx.len() ==> 0 <= #[trigger] idx[i] < convertible_tiles@.len()
                            && tiles_to_convert@[i] == convertible_tiles@[idx[i]];
                assert forall|i: int| 0 <= i < idx.len() implies 0 <= #[trigger] idx[i]
                    < rule_candidates(*old(play_field), *converter).len() && seg[i].0
                    == rule_candidates(*old(play_field), *converter)[idx[i]] by {
                    assert(seg[i] == conversions_to_apply@[before.len() + i]);
                }
                assert forall|i: int| 0 <= i < seg.len() implies (#[trigger] seg[i]).1
                    == converter.rule.convert_to by {
                    assert(seg[i] == conversions_to_apply@[before.len() + i]);
                }
                assert(segment_drawn(*old(play_field), *converter, seg));
            }
        } else {
            proof {
                let seg = conversions_to_apply@.subrange(
                    before.len() as int,
                    conversions_to_apply@.len() as int,
                );
                assert(seg.len() == 0);
                assert(Seq::<int>::empty().no_duplicates());
                assert(segment_drawn(*old(play_field), *converter, seg));
            }
        }
        proof {
            assert(converters@[j as int] == *converter);
            assert forall|k: int| 0 <= k < j + 1 implies segment_drawn(
                *old(play_field),
                #[trigger] converters@[k],
                conversions_to_apply@.subrange(
                    conversion_count(*old(play_field), converters@, k),
                    conversion_count(*old(play_field), converters@, k + 1),
                ),
            ) by {
                lemma_conversion_count_grows(*old(play_field), converters@, k, k + 1);
                if k < j {
                    assert(conversions_to_apply@.subrange(
                        conversion_count(*old(play_field), converters@, k),
                        conversion_count(*old(play_field), converters@, k + 1),
                    ) =~= before.subrange(
                        conversion_count(*old(play_field), converters@, k),
                        conversion_count(*old(play_field), converters@, k + 1),
                    ));
                }
            }
        }
        j = j + 1;
    }
    // Apply all conversions
    let ghost field0 = *play_field;
    let mut i: usize = 0;
    while i < conversions_to_apply.len()
        invariant
            0 <= i <= conversions_to_apply@.len(),
            play_field.wf(),
            play_field.entities == field0.entities,
            play_field.connections == field0.connections,
            play_field.width == field0.width,
            play_field.height == field0.height,
            play_field.tiles@ == apply_conversions(
                field0.tiles@,
                field0.width as int,
                field0.height as int,
                conversions_to_apply@.take(i as int),
            ),
        decreases conversions_to_apply.len() - i,
    {
        let (pos, new_type) = conversions_to_apply[i];
        proof {
            assert(conversions_to_apply@.take(i + 1).drop_last() =~= conversions_to_apply@.take(
                i as int,
            ));
        }
        play_field.set_tile(pos, new_type);
        i = i + 1;
    }
    proof {
        assert(conversions_to_apply@.take(conversions_to_apply@.len() as int)
            =~= conversions_to_apply@);
    }
    conversions_to_apply
}

/// Every tile that the square search finds can be converted.
proof fn lemma_square_convertible_members(
    field: PlayField,
    origin: GridPosition,
    target: TileType,
    allowed: Option<Seq<TileType>>,
    radius: int,
    m: int,
)
    ensures
        forall|k: int|
            0 <= k < square_convertible(field, origin, target, allowed, radius, m).len()
                ==> convertible(
                field,
                #[trigger] square_convertible(field, origin, target, allowed, radius, m)[k],
                target,
                allowed,
            ),
    decreases m,
{
    if m > 0 {
        lemma_square_convertible_members(field, origin, target, allowed, radius, m - 1);
        lemma_row_convertible_members(
            field,
            origin,
            target,
            allowed,
            radius,
            -radius + m - 1,
            2 * radius + 1,
        );
        let a = square_convertible(field, origin, target, allowed, radius, m - 1);
        let b = row_convertible(field, origin, target, allowed, radius, -radius + m - 1, 2 * radius + 1);
        assert forall|k: int| 0 <= k < (a + b).len() implies convertible(
            field,
            #[trigger] (a + b)[k],
            target,
            allowed,
        ) by {
            if k < a.len() {
                assert((a + b)[k] == a[k]);
            } else {
                assert((a + b)[k] == b[k - a.len()]);
            }
        }
    }
}

/// Every tile that the row search finds can be converted.
proof fn lemma_row_convertible_members(
    field: PlayField,
    origin: GridPosition,
    target: TileType,
    allowed: Option<Seq<TileType>>,
    radius: int,
    dy: int,
    n: int,
)
    ensures
        forall|k: int|
            0 <= k < row_convertible(field, origin, target, allowed, radius, dy, n).len()
                ==> convertible(
                field,
                #[trigger] row_convertible(field, origin, target, allowed, radius, dy, n)[k],
                target,
                allowed,
            ),
    decreases n,
{
    if n > 0 {
        lemma_row_convertible_members(field, origin, target, allowed, radius, dy, n - 1);
        let before = row_convertible(field, origin, target, allowed, radius, dy, n - 1);
        let all = row_convertible(field, origin, target, allowed, radius, dy, n);
        assert forall|k: int| 0 <= k < all.len() implies convertible(
            field,
            #[trigger] all[k],
            target,
            allowed,
        ) by {
            if k < before.len() {
                assert(all[k] == before[k]);
            }
        }
    }
}

} // verus!

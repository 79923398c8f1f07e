//! What holds across the operations of the library.
pub mod colors;
pub mod display;
pub mod graphemes;
pub mod register;

use crate::color::{ColorAttribute, SrgbaTuple};
use crate::diacritics::{Diacritics, DIACRITIC_COUNT, DIACRITIC_VALUES, UNICODE_PLACEHOLDER};
use crate::placements::{PlacementKey, VirtualPlacement};
use crate::screen::CellView;
use vstd::prelude::*;

verus! {

/// The diacritic that stands for a number.
#[verifier::opaque]
pub open spec fn diacritic_for(v: u32) -> char {
    DIACRITIC_VALUES@[v as int].0 as char
}

/// Every number below the length of the table has a diacritic, which stands
/// for that number.
pub proof fn law_every_number_has_a_diacritic(v: u32)
    requires
        v < DIACRITIC_COUNT,
    ensures
        crate::diacritics::encodes(diacritic_for(v), v),
        crate::diacritics::diacritic_number(diacritic_for(v)) == Some(v),
{
    reveal(diacritic_for);
    crate::diacritics::lemma_table_lists_numbers(v as int);
    assert(DIACRITIC_VALUES@[v as int].0 < 0xd800 || 0xe000 <= DIACRITIC_VALUES@[v as int].0
        < 0x11_0000);
    crate::diacritics::lemma_encodes_unique(diacritic_for(v), v, v);
}

/// A placeholder followed by the diacritics of a row, a column and a most
/// significant byte decodes to these three; with fewer diacritics, the last
/// values are absent; without any, all are.
pub proof fn law_decoding_inverts_encoding(row: u32, col: u32, msb: u32)
    requires
        row < DIACRITIC_COUNT,
        col < DIACRITIC_COUNT,
        msb < DIACRITIC_COUNT,
    ensures
        crate::diacritics::decoded(
            seq![
                UNICODE_PLACEHOLDER,
                diacritic_for(row),
                diacritic_for(col),
                diacritic_for(msb),
            ],
        ) == Some((Some(row), Some(col), Some(msb))),
        crate::diacritics::decoded(
            seq![UNICODE_PLACEHOLDER, diacritic_for(row), diacritic_for(col)],
        ) == Some((Some(row), Some(col), None::<u32>)),
        crate::diacritics::decoded(seq![UNICODE_PLACEHOLDER, diacritic_for(row)]) == Some(
            (Some(row), None::<u32>, None::<u32>),
        ),
        crate::diacritics::decoded(seq![UNICODE_PLACEHOLDER]) == Some(
            (None::<u32>, None::<u32>, None::<u32>),
        ),
{
    law_every_number_has_a_diacritic(row);
    law_every_number_has_a_diacritic(col);
    law_every_number_has_a_diacritic(msb);
}

/// Kitty diacritics beyond the third say nothing.
pub proof fn law_further_diacritics_are_ignored(grapheme: Seq<char>, more: Seq<char>)
    requires
        grapheme.len() >= 4,
        forall|i: int|
            0 <= i < more.len() ==> crate::diacritics::diacritic_number(
                #[trigger] more[i],
            ) is Some,
    ensures
        crate::diacritics::decoded(grapheme + more) == crate::diacritics::decoded(grapheme),
{
    let whole = grapheme + more;
    assert(crate::diacritics::is_placeholder(whole) == crate::diacritics::is_placeholder(grapheme))
        by {
        if crate::diacritics::is_placeholder(whole) {
            assert forall|i: int| 1 <= i < grapheme.len() implies
                crate::diacritics::diacritic_number(#[trigger] grapheme[i]) is Some by {
                assert(whole[i] == grapheme[i]);
            }
        }
    }
}

/// A combining character outside the kitty set, wherever it stands, leaves
/// a grapheme without diacritics.
pub proof fn law_foreign_diacritic_is_refused(grapheme: Seq<char>, i: int)
    requires
        1 <= i < grapheme.len(),
        crate::diacritics::diacritic_number(grapheme[i]) is None,
    ensures
        crate::diacritics::decoded(grapheme) is None,
{
}

/// Diacritics fill their places in order, and decode to numbers of the
/// table: there is no column without a row, and no most significant byte
/// without a column.
pub proof fn law_diacritics_fill_in_order(grapheme: Seq<char>)
    ensures
        crate::diacritics::decoded(grapheme) matches Some((row, col, msb)) ==> {
            &&& col is Some ==> row is Some
            &&& msb is Some ==> col is Some
            &&& row matches Some(v) ==> v < DIACRITIC_COUNT
            &&& col matches Some(v) ==> v < DIACRITIC_COUNT
            &&& msb matches Some(v) ==> v < DIACRITIC_COUNT
        },
{
    reveal(crate::diacritics::diacritic_number);
}

/// Inheritance only fills gaps: what a cell's own diacritics say stands,
/// whatever the cell to the left says. A most significant byte is not
/// inherited along with a column from another row.
pub proof fn law_own_diacritics_stand(
    grapheme: Seq<char>,
    own: Diacritics,
    left: Option<Diacritics>,
)
    requires
        crate::diacritics::decoded(grapheme) == Some(own),
    ensures
        ({
            let (row, col, msb) = crate::terminal::inherited(own, left);
            &&& own.0 is Some ==> row == own.0
            &&& own.1 is Some ==> col == own.1
            &&& own.2 is Some ==> msb == own.2
            &&& own.0 is Some && own.1 is None && (left matches Some(l) ==> l.0 != own.0)
                ==> msb is None
        }),
{
    law_diacritics_fill_in_order(grapheme);
}

/// The image id is its most significant byte followed by 24 bits. Of a
/// larger number in the place of that byte, the low 8 bits count.
pub proof fn law_image_id_parts(msb: u32, low24: u32)
    requires
        low24 < 0x100_0000,
    ensures
        crate::terminal::image_id_of(msb, low24) == (msb % 256) * 0x100_0000 + low24,
{
    assert(((msb << 24) | low24) == (msb % 256) * 0x100_0000 + low24) by (bit_vector)
        requires
            low24 < 0x100_0000,
    ;
}

/// A true color made from three bytes encodes their 24-bit RGB value.
pub proof fn law_true_color_encodes_rgb(color: SrgbaTuple, red: u8, green: u8, blue: u8)
    requires
        crate::component::near_byte(color.0, red),
        crate::component::near_byte(color.1, green),
        crate::component::near_byte(color.2, blue),
    ensures
        crate::color::rgb_bits(color) == red * 0x1_0000 + green * 0x100 + blue,
{
    crate::component::lemma_level_near_byte(color.0, red);
    crate::component::lemma_level_near_byte(color.1, green);
    crate::component::lemma_level_near_byte(color.2, blue);
    let r = crate::component::level(color.0);
    let g = crate::component::level(color.1);
    let b = crate::component::level(color.2);
    assert(((r << 16) | (g << 8) | b) == r * 0x1_0000 + g * 0x100 + b) by (bit_vector)
        requires
            r < 256,
            g < 256,
            b < 256,
    ;
}

/// The red, green and blue components are numbers from 0 to 1.
pub open spec fn in_gamut(color: ColorAttribute) -> bool {
    match color {
        ColorAttribute::TrueColorWithPaletteFallback(s, _)
        | ColorAttribute::TrueColorWithDefaultFallback(s) => {
            &&& crate::component::in_unit_range(s.0)
            &&& crate::component::in_unit_range(s.1)
            &&& crate::component::in_unit_range(s.2)
        },
        _ => true,
    }
}

/// A color whose components lie between 0 and 1, and every palette color,
/// encodes at most 24 bits.
pub proof fn law_colors_encode_24_bits(color: ColorAttribute)
    requires
        in_gamut(color),
    ensures
        crate::color::id_bits(color) matches Some(bits) ==> bits < 0x100_0000,
{
    match color {
        ColorAttribute::TrueColorWithPaletteFallback(s, _)
        | ColorAttribute::TrueColorWithDefaultFallback(s) => {
            crate::component::lemma_unit_level(s.0);
            crate::component::lemma_unit_level(s.1);
            crate::component::lemma_unit_level(s.2);
            let r = crate::component::level(s.0);
            let g = crate::component::level(s.1);
            let b = crate::component::level(s.2);
            assert(((r << 16) | (g << 8) | b) < 0x100_0000) by (bit_vector)
                requires
                    r < 256,
                    g < 256,
                    b < 256,
            ;
        },
        _ => {},
    }
}

/// The single precision quotients of three bytes and 255 make a true color
/// that encodes their 24-bit RGB value.
pub proof fn law_byte_color_encodes_rgb(color: SrgbaTuple, red: u8, green: u8, blue: u8)
    requires
        crate::component::nearest_to_byte(color.0, red),
        crate::component::nearest_to_byte(color.1, green),
        crate::component::nearest_to_byte(color.2, blue),
    ensures
        crate::color::rgb_bits(color) == red * 0x1_0000 + green * 0x100 + blue,
{
    crate::component::lemma_nearest_is_near(color.0, red);
    crate::component::lemma_nearest_is_near(color.1, green);
    crate::component::lemma_nearest_is_near(color.2, blue);
    law_true_color_encodes_rgb(color, red, green, blue);
}

/// Every 32-bit image id can be addressed: by the diacritic of its most
/// significant byte and a true color made from its three lower bytes.
pub proof fn law_every_image_id_is_addressable(image_id: u32, color: SrgbaTuple)
    requires
        crate::component::near_byte(color.0, (image_id / 0x1_0000 % 256) as u8),
        crate::component::near_byte(color.1, (image_id / 0x100 % 256) as u8),
        crate::component::near_byte(color.2, (image_id % 256) as u8),
    ensures
        image_id / 0x100_0000 < DIACRITIC_COUNT,
        crate::terminal::image_id_of(image_id / 0x100_0000, crate::color::rgb_bits(color))
            == image_id,
{
    law_true_color_encodes_rgb(
        color,
        (image_id / 0x1_0000 % 256) as u8,
        (image_id / 0x100 % 256) as u8,
        (image_id % 256) as u8,
    );
    law_image_id_parts(image_id / 0x100_0000, crate::color::rgb_bits(color));
}

/// Sameness of colors is symmetric, and every color that holds no NaN is
/// the same as itself.
pub proof fn law_same_color(a: ColorAttribute, b: ColorAttribute)
    ensures
        crate::color::same_color(a, b) == crate::color::same_color(b, a),
        (match a {
            ColorAttribute::TrueColorWithPaletteFallback(s, _) => !has_nan(s),
            ColorAttribute::TrueColorWithDefaultFallback(s) => !has_nan(s),
            _ => true,
        }) == crate::color::same_color(a, a),
{
}

/// Colors that compare equal encode the same id.
pub proof fn law_same_color_same_id(a: ColorAttribute, b: ColorAttribute)
    requires
        crate::color::same_color(a, b),
    ensures
        crate::color::id_bits(a) == crate::color::id_bits(b),
{
    match (a, b) {
        (
            ColorAttribute::TrueColorWithPaletteFallback(s, _),
            ColorAttribute::TrueColorWithPaletteFallback(t, _),
        )
        | (
            ColorAttribute::TrueColorWithDefaultFallback(s),
            ColorAttribute::TrueColorWithDefaultFallback(t),
        ) => {
            crate::component::lemma_same_number_same_level(s.0, t.0);
            crate::component::lemma_same_number_same_level(s.1, t.1);
            crate::component::lemma_same_number_same_level(s.2, t.2);
        },
        _ => {},
    }
}

/// One of the components is not a number.
pub open spec fn has_nan(color: SrgbaTuple) -> bool {
    ||| crate::component::is_nan(color.0)
    ||| crate::component::is_nan(color.1)
    ||| crate::component::is_nan(color.2)
    ||| crate::component::is_nan(color.3)
}

/// What was registered is found under the same ids.
pub proof fn law_registered_is_found<D>(
    m: Map<PlacementKey, VirtualPlacement<D>>,
    image_id: u32,
    placement_id: Option<u32>,
    placement: VirtualPlacement<D>,
)
    ensures
        crate::placements::found(
            m.insert((image_id, placement_id), placement),
            image_id,
            placement_id,
        ) == Some(placement),
{
}

/// Two registers that agree on an image find the same for it.
proof fn lemma_found_agrees<D>(
    m: Map<PlacementKey, VirtualPlacement<D>>,
    n: Map<PlacementKey, VirtualPlacement<D>>,
    image_id: u32,
    placement_id: Option<u32>,
)
    requires
        forall|p: Option<u32>|
            #![trigger m.contains_key((image_id, p))]
            #![trigger n.contains_key((image_id, p))]
            m.contains_key((image_id, p)) == n.contains_key((image_id, p)) && (m.contains_key(
                (image_id, p),
            ) ==> m[(image_id, p)] == n[(image_id, p)]),
    ensures
        crate::placements::found(m, image_id, placement_id) == crate::placements::found(
            n,
            image_id,
            placement_id,
        ),
{
    assert forall|p: u32|
        crate::placements::is_smallest(m, image_id, p) == crate::placements::is_smallest(
            n,
            image_id,
            p,
        ) by {
        assert forall|q: u32|
            m.contains_key((image_id, Some(q))) == n.contains_key((image_id, Some(q))) by {}
    }
    assert((exists|p: u32| crate::placements::is_smallest(m, image_id, p)) == (exists|p: u32|
        crate::placements::is_smallest(n, image_id, p)));
    let p = choose|p: u32| crate::placements::is_smallest(m, image_id, p);
    let q = choose|q: u32| crate::placements::is_smallest(n, image_id, q);
    if exists|p: u32| crate::placements::is_smallest(m, image_id, p) {
        assert(crate::placements::is_smallest(n, image_id, p));
        assert(p == q);
    }
}

/// Registering a placement changes nothing for other images, nor for other
/// explicit placement ids of the same image.
pub proof fn law_registering_leaves_the_rest<D>(
    m: Map<PlacementKey, VirtualPlacement<D>>,
    image_id: u32,
    placement_id: Option<u32>,
    placement: VirtualPlacement<D>,
    other_image: u32,
    other_placement: Option<u32>,
)
    requires
        other_image != image_id || (other_placement is Some && other_placement != placement_id),
    ensures
        crate::placements::found(
            m.insert((image_id, placement_id), placement),
            other_image,
            other_placement,
        ) == crate::placements::found(m, other_image, other_placement),
{
    if other_image != image_id {
        lemma_found_agrees(
            m.insert((image_id, placement_id), placement),
            m,
            other_image,
            other_placement,
        );
    }
}

/// A lookup without a placement id succeeds if and only if the image has a
/// placement at all; then it yields the placement without an explicit id if
/// there is one, otherwise that of the smallest id.
pub proof fn law_lookup_without_placement_id<D>(
    m: Map<PlacementKey, VirtualPlacement<D>>,
    image_id: u32,
    placement_id: Option<u32>,
)
    requires
        m.contains_key((image_id, placement_id)),
    ensures
        crate::placements::found(m, image_id, None) is Some,
        m.contains_key((image_id, None)) ==> crate::placements::found(m, image_id, None) == Some(
            m[(image_id, None)],
        ),
        !m.contains_key((image_id, None)) ==> exists|p: u32| #[trigger]
            crate::placements::is_smallest(m, image_id, p) && crate::placements::found(
                m,
                image_id,
                None,
            ) == Some(m[(image_id, Some(p))]),
{
    if !m.contains_key((image_id, None)) {
        lemma_smallest_exists(m, image_id, placement_id->0);
    }
}

/// An image with an explicit placement id has a smallest one.
proof fn lemma_smallest_exists<D>(
    m: Map<PlacementKey, VirtualPlacement<D>>,
    image_id: u32,
    placement_id: u32,
)
    requires
        m.contains_key((image_id, Some(placement_id))),
    ensures
        exists|p: u32| #[trigger] crate::placements::is_smallest(m, image_id, p),
    decreases placement_id,
{
    if !crate::placements::is_smallest(m, image_id, placement_id) {
        let q = choose|q: u32| #[trigger]
            m.contains_key((image_id, Some(q))) && q < placement_id;
        lemma_smallest_exists(m, image_id, q);
    }
}

/// An image without placements is not found, under whatever placement id.
pub proof fn law_unregistered_is_not_found<D>(
    m: Map<PlacementKey, VirtualPlacement<D>>,
    image_id: u32,
    placement_id: Option<u32>,
)
    requires
        forall|p: Option<u32>| !#[trigger] m.contains_key((image_id, p)),
    ensures
        crate::placements::found(m, image_id, placement_id) is None,
{
}

/// What was removed is not found any more: the placement of an explicit id,
/// or, without one, any placement of the image. Removing it once more
/// changes nothing, and other images keep what they have.
pub proof fn law_removed_is_not_found<D>(
    m: Map<PlacementKey, VirtualPlacement<D>>,
    image_id: u32,
    placement_id: Option<u32>,
    other_image: u32,
    any_placement: Option<u32>,
)
    ensures
        ({
            let n = crate::placements::without(m, image_id, placement_id);
            &&& crate::placements::found(n, image_id, placement_id) is None
            &&& placement_id is None ==> crate::placements::found(
                n,
                image_id,
                any_placement,
            ) is None
            &&& crate::placements::without(n, image_id, placement_id) == n
            &&& other_image != image_id ==> crate::placements::found(
                n,
                other_image,
                any_placement,
            ) == crate::placements::found(m, other_image, any_placement)
        }),
{
    let n = crate::placements::without(m, image_id, placement_id);
    assert(crate::placements::without(n, image_id, placement_id) =~= n);
    if other_image != image_id {
        lemma_found_agrees(n, m, other_image, any_placement);
    }
}

/// Removing one explicit placement id leaves the others of that image.
pub proof fn law_removing_one_leaves_the_others<D>(
    m: Map<PlacementKey, VirtualPlacement<D>>,
    image_id: u32,
    placement_id: u32,
    other_placement: u32,
)
    requires
        other_placement != placement_id,
    ensures
        crate::placements::found(
            crate::placements::without(m, image_id, Some(placement_id)),
            image_id,
            Some(other_placement),
        ) == crate::placements::found(m, image_id, Some(other_placement)),
{
}

/// Removing undoes registering: a placement under a new explicit id, or the
/// first placement of an image, leaves no trace.
pub proof fn law_removing_undoes_registering<D>(
    m: Map<PlacementKey, VirtualPlacement<D>>,
    image_id: u32,
    placement_id: Option<u32>,
    placement: VirtualPlacement<D>,
)
    requires
        !m.contains_key((image_id, placement_id)),
        placement_id is None ==> forall|p: Option<u32>| !#[trigger] m.contains_key((image_id, p)),
    ensures
        crate::placements::without(
            m.insert((image_id, placement_id), placement),
            image_id,
            placement_id,
        ) == m,
{
    if placement_id is None {
        assert forall|key: PlacementKey| m.contains_key(key) implies key.0 != image_id by {
            assert(key == (key.0, key.1));
        }
    }
    assert(crate::placements::without(
        m.insert((image_id, placement_id), placement),
        image_id,
        placement_id,
    ) =~= m);
}

/// A placeholder cell displays what was registered for it: with colors and
/// diacritics that give the ids of a registered placement, and a row and a
/// column inside it, the cell shows that fragment of that image.
pub proof fn law_registered_is_displayed<D>(
    m: Map<PlacementKey, VirtualPlacement<D>>,
    image_id: u32,
    placement_id: Option<u32>,
    placement: VirtualPlacement<D>,
    cell: CellView<D>,
    left: Option<CellView<D>>,
    row: u32,
    col: u32,
)
    requires
        crate::diacritics::decoded(cell.text) is Some,
        crate::color::id_bits(cell.foreground) is Some,
        ({
            let own = crate::diacritics::decoded(cell.text)->0;
            let low24 = crate::color::id_bits(cell.foreground)->0;
            let position = crate::terminal::position_of(own, cell, left);
            &&& position.0 == row
            &&& position.1 == col
            &&& crate::terminal::image_id_of(position.2, low24) == image_id
        }),
        crate::color::id_bits(cell.underline_color) == placement_id,
        row < placement.rows,
        col < placement.cols,
    ensures
        crate::terminal::displayed(
            m.insert((image_id, placement_id), placement),
            cell,
            left,
        ) == Some(crate::terminal::fragment_of(placement, row, col, image_id, placement_id)),
{
    law_registered_is_found(m, image_id, placement_id, placement);
}

/// A cell with all three diacritics inherits nothing.
proof fn lemma_complete_position<D>(
    row: u32,
    col: u32,
    msb: u32,
    cell: CellView<D>,
    left: Option<CellView<D>>,
)
    ensures
        crate::terminal::position_of((Some(row), Some(col), Some(msb)), cell, left) == (
            row,
            col,
            msb,
        ),
{
}

/// Any fragment of any image can be displayed by the characters and colors
/// that encode it: a placeholder with the diacritics of the row, the column
/// and the most significant byte of the image id, whose foreground color is
/// made from the lower bytes of that id and whose underline color gives the
/// placement id.
pub proof fn law_encoded_fragment_is_displayed<D>(
    m: Map<PlacementKey, VirtualPlacement<D>>,
    image_id: u32,
    placement_id: Option<u32>,
    placement: VirtualPlacement<D>,
    cell: CellView<D>,
    left: Option<CellView<D>>,
    row: u32,
    col: u32,
    color: SrgbaTuple,
)
    requires
        row < placement.rows,
        col < placement.cols,
        row < DIACRITIC_COUNT,
        col < DIACRITIC_COUNT,
        cell.text == seq![
            UNICODE_PLACEHOLDER,
            diacritic_for(row),
            diacritic_for(col),
            diacritic_for(image_id / 0x100_0000),
        ],
        cell.foreground == ColorAttribute::TrueColorWithDefaultFallback(color),
        crate::component::near_byte(color.0, (image_id / 0x1_0000 % 256) as u8),
        crate::component::near_byte(color.1, (image_id / 0x100 % 256) as u8),
        crate::component::near_byte(color.2, (image_id % 256) as u8),
        crate::color::id_bits(cell.underline_color) == placement_id,
    ensures
        crate::terminal::displayed(
            m.insert((image_id, placement_id), placement),
            cell,
            left,
        ) == Some(crate::terminal::fragment_of(placement, row, col, image_id, placement_id)),
{
    let msb = image_id / 0x100_0000;
    assert(crate::diacritics::decoded(cell.text) == Some((Some(row), Some(col), Some(msb)))) by {
        law_decoding_inverts_encoding(row, col, msb);
    }
    lemma_complete_position(row, col, msb, cell, left);
    assert(crate::terminal::image_id_of(msb, crate::color::rgb_bits(color)) == image_id) by {
        law_every_image_id_is_addressable(image_id, color);
    }
    law_registered_is_displayed(m, image_id, placement_id, placement, cell, left, row, col);
}

/// After every placement of an image was removed, no cell displays it.
pub proof fn law_removed_image_is_not_displayed<D>(
    m: Map<PlacementKey, VirtualPlacement<D>>,
    image_id: u32,
    cell: CellView<D>,
    left: Option<CellView<D>>,
)
    ensures
        crate::terminal::displayed(
            crate::placements::without(m, image_id, None),
            cell,
            left,
        ) matches Some(image) ==> image.image_id != Some(image_id),
{
    law_removed_is_not_found(
        m,
        image_id,
        None,
        image_id,
        crate::color::id_bits(cell.underline_color),
    );
}

/// An unset underline color matches any placement: a cell that addresses an
/// image with a single placement displays that one, whatever its id.
pub proof fn law_unset_underline_matches_any_placement<D>(
    m: Map<PlacementKey, VirtualPlacement<D>>,
    image_id: u32,
    placement_id: Option<u32>,
    cell: CellView<D>,
    left: Option<CellView<D>>,
    row: u32,
    col: u32,
)
    requires
        m.contains_key((image_id, placement_id)),
        forall|p: Option<u32>| #[trigger] m.contains_key((image_id, p)) ==> p == placement_id,
        crate::diacritics::decoded(cell.text) is Some,
        crate::color::id_bits(cell.foreground) is Some,
        ({
            let own = crate::diacritics::decoded(cell.text)->0;
            let low24 = crate::color::id_bits(cell.foreground)->0;
            let position = crate::terminal::position_of(own, cell, left);
            &&& position.0 == row
            &&& position.1 == col
            &&& crate::terminal::image_id_of(position.2, low24) == image_id
        }),
        cell.underline_color is Default,
        row < m[(image_id, placement_id)].rows,
        col < m[(image_id, placement_id)].cols,
    ensures
        crate::terminal::displayed(m, cell, left) == Some(
            crate::terminal::fragment_of(m[(image_id, placement_id)], row, col, image_id, None),
        ),
{
    law_lookup_without_placement_id(m, image_id, placement_id);
    if placement_id is Some {
        let p = choose|p: u32| #[trigger]
            crate::placements::is_smallest(m, image_id, p) && crate::placements::found(
                m,
                image_id,
                None,
            ) == Some(m[(image_id, Some(p))]);
        assert(m.contains_key((image_id, Some(p))));
    }
}

/// A placeholder without diacritics repeats the fragment of a complete
/// placeholder of the same colors to its left.
pub proof fn law_bare_placeholder_repeats<D>(
    m: Map<PlacementKey, VirtualPlacement<D>>,
    cell: CellView<D>,
    left: CellView<D>,
    before: Option<CellView<D>>,
)
    requires
        cell.text == seq![UNICODE_PLACEHOLDER],
        crate::diacritics::decoded(left.text) matches Some((Some(_), Some(_), Some(_))),
        crate::color::same_color(left.foreground, cell.foreground),
        crate::color::same_color(left.underline_color, cell.underline_color),
    ensures
        crate::terminal::displayed(m, cell, Some(left)) == crate::terminal::displayed(
            m,
            left,
            before,
        ),
{
    law_same_color_same_id(left.foreground, cell.foreground);
    law_same_color_same_id(left.underline_color, cell.underline_color);
}

/// A fragment is a non-empty rectangle inside its image, and the fragments
/// of a placement tile it: the first starts at the edge, each ends where
/// the next one starts, and the last ends at the opposite edge.
pub proof fn law_fragments_tile<D>(
    placement: VirtualPlacement<D>,
    row: u32,
    col: u32,
    image_id: u32,
    placement_id: Option<u32>,
)
    requires
        row < placement.rows,
        col < placement.cols,
    ensures
        ({
            let here = crate::terminal::fragment_of(placement, row, col, image_id, placement_id);
            let right = crate::terminal::fragment_of(
                placement,
                row,
                (col + 1) as u32,
                image_id,
                placement_id,
            );
            let below = crate::terminal::fragment_of(
                placement,
                (row + 1) as u32,
                col,
                image_id,
                placement_id,
            );
            &&& here.top_left.x.num < here.bottom_right.x.num <= here.top_left.x.den
            &&& here.top_left.y.num < here.bottom_right.y.num <= here.top_left.y.den
            &&& here.top_left.x.den == here.bottom_right.x.den
            &&& here.top_left.y.den == here.bottom_right.y.den
            &&& col == 0 ==> here.top_left.x.num == 0
            &&& row == 0 ==> here.top_left.y.num == 0
            &&& right.top_left.x == here.bottom_right.x
            &&& below.top_left.y == here.bottom_right.y
            &&& col + 1 == placement.cols ==> here.bottom_right.x.num == here.bottom_right.x.den
            &&& row + 1 == placement.rows ==> here.bottom_right.y.num == here.bottom_right.y.den
        }),
{
}

/// Resolving a placeholder keeps the shape of the grid and all of its text
/// and colors. Only the resolved cell can gain an image, at most one, and no
/// cell loses one.
pub proof fn law_resolving_keeps_text<D>(
    m: Map<PlacementKey, VirtualPlacement<D>>,
    grid: Seq<Seq<CellView<D>>>,
    x: int,
    y: int,
    i: int,
    j: int,
)
    ensures
        ({
            let after = crate::terminal::resolved(m, grid, x, y);
            &&& after.len() == grid.len()
            &&& 0 <= j < grid.len() ==> after[j].len() == grid[j].len()
            &&& crate::screen::on_screen(grid, i, j) ==> {
                &&& after[j][i].text == grid[j][i].text
                &&& after[j][i].foreground == grid[j][i].foreground
                &&& after[j][i].underline_color == grid[j][i].underline_color
                &&& grid[j][i].images.is_prefix_of(after[j][i].images)
                &&& after[j][i].images.len() <= grid[j][i].images.len() + 1
                &&& (i, j) != (x, y) ==> after[j][i] == grid[j][i]
            }
        }),
{
}

/// With all three diacritics present, no other cell influences the result:
/// on two grids that agree in that cell, and whatever else they hold, it is
/// the same after it was resolved.
pub proof fn law_complete_placeholder_stands_alone<D>(
    m: Map<PlacementKey, VirtualPlacement<D>>,
    grid: Seq<Seq<CellView<D>>>,
    other: Seq<Seq<CellView<D>>>,
    x: int,
    y: int,
)
    requires
        crate::screen::cell_at(grid, x, y) == crate::screen::cell_at(other, x, y),
        crate::screen::cell_at(grid, x, y) matches Some(cell) && crate::diacritics::decoded(
            cell.text,
        ) matches Some((Some(_), Some(_), Some(_))),
    ensures
        crate::terminal::displayed_at(m, grid, x, y) == crate::terminal::displayed_at(
            m,
            other,
            x,
            y,
        ),
        crate::screen::cell_at(crate::terminal::resolved(m, grid, x, y), x, y)
            == crate::screen::cell_at(crate::terminal::resolved(m, other, x, y), x, y),
{
}

/// Resolving a cell that does not start with the placeholder character, or
/// whose foreground color is unset, changes nothing.
pub proof fn law_plain_text_is_untouched<D>(
    m: Map<PlacementKey, VirtualPlacement<D>>,
    grid: Seq<Seq<CellView<D>>>,
    x: int,
    y: int,
)
    requires
        crate::screen::cell_at(grid, x, y) matches Some(cell) ==> {
            ||| cell.text.len() == 0
            ||| cell.text[0] != UNICODE_PLACEHOLDER
            ||| cell.foreground is Default
        },
    ensures
        crate::terminal::resolved(m, grid, x, y) == grid,
{
}

} // verus!

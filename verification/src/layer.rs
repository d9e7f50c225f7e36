//! Layer-shell arrangement: primary-output choice, per-layer rectangles from anchors and margins,
//! and work areas shrunk by exclusive zones.

#[allow(unused_imports)]
use vstd::prelude::*;

use crate::model::{SurfaceGeometry, WorkArea};

verus! {

/// Value clamped into the `i32` range.
pub open spec fn clamp_i32(value: int) -> int {
    crate::geometry::clamp_i32(value)
}

/// `i32` subtraction saturating at the type bounds.
pub fn i32_saturating_sub(a: i32, b: i32) -> (result: i32)
    ensures
        result == clamp_i32(a - b),
{
    let wide = a as i64 - b as i64;
    if wide < i32::MIN as i64 {
        i32::MIN
    } else if wide > i32::MAX as i64 {
        i32::MAX
    } else {
        wide as i32
    }
}

/// `i32` addition saturating at the type bounds.
pub fn i32_saturating_add(a: i32, b: i32) -> (result: i32)
    ensures
        result == clamp_i32(a + b),
{
    let wide = a as i64 + b as i64;
    if wide < i32::MIN as i64 {
        i32::MIN
    } else if wide > i32::MAX as i64 {
        i32::MAX
    } else {
        wide as i32
    }
}

/// Edges a layer surface is anchored to.
#[derive(Clone, Copy, Debug, PartialEq, Eq, Structural, Default)]
pub struct LayerAnchor {
    pub top: bool,
    pub bottom: bool,
    pub left: bool,
    pub right: bool,
}

/// Margins a layer surface keeps from its anchored edges.
#[derive(Clone, Copy, Debug, PartialEq, Eq, Structural, Default)]
pub struct LayerMargins {
    pub top: i32,
    pub right: i32,
    pub bottom: i32,
    pub left: i32,
}

/// Layer-shell state that arrangement reads.
#[derive(Clone, Copy, Debug, PartialEq, Eq, Structural)]
pub struct LayerShellSurface {
    pub desired_width: u32,
    pub desired_height: u32,
    pub exclusive_zone: i32,
    pub margins: LayerMargins,
}

/// One layer surface: its protocol state, where it wants to be shown, and its rectangle.
#[derive(Clone, Debug)]
pub struct LayerRecord {
    pub surface: LayerShellSurface,
    /// Output name the client asked for (`None` means "any", i.e. the primary output).
    pub desired_output_name: Option<String>,
    pub anchor: LayerAnchor,
    pub geometry: SurfaceGeometry,
    pub buffer_attached: bool,
    /// Output entity the layer is bound to, when the name resolved.
    pub layer_output: Option<u64>,
}

/// Entity and size (each side at least one, as `i32`) of an output.
#[derive(Clone, Copy, Debug, PartialEq, Eq, Structural)]
pub struct OutputSize {
    pub entity: u64,
    pub width: i32,
    pub height: i32,
}

/// An output as the layer systems see it.
#[derive(Clone, Copy, Debug, PartialEq, Eq, Structural)]
pub struct LayerOutput {
    pub entity: u64,
    pub id: u64,
    pub width: u32,
    pub height: u32,
}

/// Two's-complement reinterpretation of a `u32` as `i32` (what `as i32` does).
pub open spec fn wrap_i32(value: int) -> int {
    if value > i32::MAX {
        value - 0x1_0000_0000
    } else {
        value
    }
}

/// Reinterprets a `u32` as `i32` the way `as i32` does.
pub fn u32_as_i32(value: u32) -> (result: i32)
    ensures
        result == wrap_i32(value as int),
{
    if value <= 0x7fff_ffff {
        value as i32
    } else {
        (value as i64 - 0x1_0000_0000) as i32
    }
}

/// `max(value, 1)` reinterpreted as `i32`, as the output size table stores it.
pub open spec fn side(value: u32) -> i32 {
    wrap_i32(
        if value == 0 {
            1
        } else {
            value as int
        },
    ) as i32
}

/// Size table entry of an output.
pub open spec fn size_of(output: LayerOutput) -> OutputSize {
    OutputSize { entity: output.entity, width: side(output.width), height: side(output.height) }
}

/// Builds the size table of the outputs, in order.
pub fn output_sizes(outputs: &Vec<LayerOutput>) -> (sizes: Vec<OutputSize>)
    ensures
        sizes@ == outputs@.map_values(|output: LayerOutput| size_of(output)),
{
    let mut sizes: Vec<OutputSize> = Vec::new();
    let mut i: usize = 0;
    while i < outputs.len()
        invariant
            i <= outputs.len(),
            sizes@ == outputs@.take(i as int).map_values(|output: LayerOutput| size_of(output)),
        decreases outputs.len() - i,
    {
        let output = outputs[i];
        let width: u32 = if output.width == 0 {
            1
        } else {
            output.width
        };
        let height: u32 = if output.height == 0 {
            1
        } else {
            output.height
        };
        sizes.push(OutputSize { entity: output.entity, width: u32_as_i32(width), height: u32_as_i32(height) });
        proof {
            assert(outputs@.take(i + 1) == outputs@.take(i as int).push(outputs@[i as int]));
        }
        i += 1;
    }
    proof {
        assert(outputs@.take(i as int) == outputs@);
    }
    sizes
}

/// Output with the given id.
pub open spec fn has_layer_output_id(id: u64) -> spec_fn(LayerOutput) -> bool {
    |output: LayerOutput| output.id == id
}

/// Size entry of the given entity.
pub open spec fn has_size_entity(entity: u64) -> spec_fn(OutputSize) -> bool {
    |size: OutputSize| size.entity == entity
}

proof fn lemma_area_fits(size: OutputSize)
    ensures
        i64::MIN <= area(size) <= i64::MAX,
{
    assert(-0x8000_0000 * 0x7fff_ffff <= size.width * size.height <= 0x8000_0000 * 0x8000_0000)
        by (nonlinear_arith)
        requires
            -0x8000_0000 <= size.width <= 0x7fff_ffff,
            -0x8000_0000 <= size.height <= 0x7fff_ffff,
    ;
}

/// Area of an output size.
pub open spec fn area(size: OutputSize) -> int {
    size.width * size.height
}

/// Whether `a` ranks above `b` as primary candidate: larger area, ties broken by larger entity.
pub open spec fn ranks_above(a: OutputSize, b: OutputSize) -> bool {
    area(a) > area(b) || (area(a) == area(b) && a.entity > b.entity)
}

/// Largest of the first `n` sizes: a later entry replaces the current best only when it ranks
/// strictly above it.
pub open spec fn largest_prefix(sizes: Seq<OutputSize>, n: int) -> OutputSize
    decreases n,
{
    if n <= 1 {
        sizes[0]
    } else {
        let best = largest_prefix(sizes, n - 1);
        if ranks_above(sizes[n - 1], best) {
            sizes[n - 1]
        } else {
            best
        }
    }
}

/// The chosen primary size is a largest entry of the table.
pub proof fn law_largest_prefix_is_largest(sizes: Seq<OutputSize>, n: int)
    requires
        1 <= n <= sizes.len(),
    ensures
        sizes.subrange(0, n).contains(largest_prefix(sizes, n)),
        forall|i: int| 0 <= i < n ==> !ranks_above(#[trigger] sizes[i], largest_prefix(sizes, n)),
    decreases n,
{
    if n == 1 {
        assert(sizes.subrange(0, 1)[0] == sizes[0]);
    } else {
        law_largest_prefix_is_largest(sizes, n - 1);
        let best = largest_prefix(sizes, n - 1);
        if ranks_above(sizes[n - 1], best) {
            assert(sizes.subrange(0, n)[n - 1] == sizes[n - 1]);
        } else {
            let k = choose|k: int| 0 <= k < n - 1 && #[trigger] sizes.subrange(0, n - 1)[k] == best;
            assert(sizes.subrange(0, n)[k] == best);
        }
    }
}

/// Picks the largest output (area, ties broken by entity) as primary layout target.
pub fn primary_output_from_sizes(sizes: &Vec<OutputSize>) -> (result: Option<OutputSize>)
    ensures
        sizes@.len() == 0 <==> result is None,
        result matches Some(best) ==> best == largest_prefix(sizes@, sizes@.len() as int),
{
    if sizes.len() == 0 {
        return None;
    }
    let mut best = sizes[0];
    proof {
        lemma_area_fits(best);
    }
    let mut best_area: i64 = best.width as i64 * best.height as i64;
    let mut i: usize = 1;
    while i < sizes.len()
        invariant
            1 <= i <= sizes.len(),
            best == largest_prefix(sizes@, i as int),
            best_area == area(best),
        decreases sizes.len() - i,
    {
        let candidate = sizes[i];
        proof {
            lemma_area_fits(candidate);
        }
        let candidate_area: i64 = candidate.width as i64 * candidate.height as i64;
        if candidate_area > best_area || (candidate_area == best_area && candidate.entity
            > best.entity) {
            best = candidate;
            best_area = candidate_area;
        }
        i += 1;
    }
    Some(best)
}

/// Primary output: the output whose id is `primary_id` when it exists, else the largest one.
pub fn primary_output_from_state_or_sizes(
    primary_id: Option<u64>,
    sizes: &Vec<OutputSize>,
    outputs: &Vec<LayerOutput>,
) -> (result: Option<OutputSize>)
    requires
        sizes@ == outputs@.map_values(|output: LayerOutput| size_of(output)),
    ensures
        ({
            let by_id = match primary_id {
                Some(id) => crate::search::first_index(outputs@, has_layer_output_id(id)),
                None => None,
            };
            match by_id {
                Some(i) => result == Some(size_of(outputs@[i])),
                None => (sizes@.len() == 0 <==> result is None) && (result matches Some(best)
                    ==> best == largest_prefix(sizes@, sizes@.len() as int)),
            }
        }),
{
    if let Some(id) = primary_id {
        let mut i: usize = 0;
        while i < outputs.len()
            invariant
                i <= outputs.len(),
                primary_id == Some(id),
                crate::search::first_index(outputs@, has_layer_output_id(id))
                    == crate::search::first_index_from(
                    outputs@,
                    has_layer_output_id(id),
                    i as int,
                ),
            decreases outputs.len() - i,
        {
            if outputs[i].id == id {
                let output = outputs[i];
                assert(crate::search::first_index(outputs@, has_layer_output_id(id)) == Some(i as int));
                assert(output == outputs@[i as int]);
                let width: u32 = if output.width == 0 {
                    1
                } else {
                    output.width
                };
                let height: u32 = if output.height == 0 {
                    1
                } else {
                    output.height
                };
                return Some(
                    OutputSize { entity: output.entity, width: u32_as_i32(width), height: u32_as_i32(height) },
                );
            }
            i += 1;
        }
    }
    primary_output_from_sizes(sizes)
}

/// Size entry of the first output with the given entity.
pub open spec fn size_by_entity(sizes: Seq<OutputSize>, entity: u64) -> Option<OutputSize> {
    match crate::search::first_index(sizes, has_size_entity(entity)) {
        Some(i) => Some(sizes[i]),
        None => None,
    }
}

/// Output size a layer is arranged against: the bound output's, or the primary output's for a
/// layer that named no output; a layer whose named output did not resolve stays detached.
pub open spec fn target_for_layer(
    desired_output_name: Option<String>,
    layer_output: Option<u64>,
    primary: OutputSize,
    sizes: Seq<OutputSize>,
) -> Option<OutputSize> {
    match layer_output {
        Some(entity) => size_by_entity(sizes, entity),
        None => if desired_output_name is None {
            Some(primary)
        } else {
            None
        },
    }
}

/// Chooses the output size a layer is arranged against.
pub fn output_size_for_layer(
    desired_output_name: &Option<String>,
    layer_output: Option<u64>,
    primary: OutputSize,
    sizes: &Vec<OutputSize>,
) -> (result: Option<OutputSize>)
    ensures
        result == target_for_layer(*desired_output_name, layer_output, primary, sizes@),
{
    if let Some(entity) = layer_output {
        let mut i: usize = 0;
        while i < sizes.len()
            invariant
                i <= sizes.len(),
                layer_output == Some(entity),
                crate::search::first_index(sizes@, has_size_entity(entity))
                    == crate::search::first_index_from(
                    sizes@,
                    has_size_entity(entity),
                    i as int,
                ),
            decreases sizes.len() - i,
        {
            if sizes[i].entity == entity {
                assert(crate::search::first_index(sizes@, has_size_entity(entity)) == Some(i as int));
                assert(size_by_entity(sizes@, entity) == Some(sizes@[i as int]));

                return Some(sizes[i]);
            }
            i += 1;
        }
        return None;
    }
    if desired_output_name.is_none() {
        Some(primary)
    } else {
        None
    }
}

/// Width/height before anchoring: the desired size, or the current one when none was requested.
pub open spec fn base_extent(desired: u32, current: u32) -> int {
    if desired > 0 {
        desired as int
    } else if current == 0 {
        1
    } else {
        current as int
    }
}

/// Position along one axis: at the near margin, at the far edge less the far margin, or centred
/// between the margins.
pub open spec fn axis_position(
    near_anchor: bool,
    far_anchor: bool,
    output_extent: int,
    extent: int,
    near_margin: int,
    far_margin: int,
) -> int {
    if near_anchor {
        near_margin
    } else if far_anchor {
        clamp_i32(clamp_i32(output_extent - extent) - far_margin)
    } else {
        half_toward_zero(clamp_i32(output_extent - extent) + near_margin - far_margin)
    }
}

/// Integer halving rounded toward zero, as Rust's `/ 2` on signed integers.
pub open spec fn half_toward_zero(value: int) -> int {
    if value >= 0 {
        value / 2
    } else {
        -((-value) / 2)
    }
}

/// Extent along one axis: stretched between both margins when anchored to both edges.
pub open spec fn axis_extent(
    both_anchors: bool,
    output_extent: int,
    base: int,
    margins: int,
) -> int {
    if both_anchors {
        clamp_i32(output_extent - margins)
    } else {
        base
    }
}

/// The centring arithmetic of one axis stays inside `i32`.
pub open spec fn centring_fits(output_extent: int, extent: int, near_margin: int, far_margin: int) -> bool {
    let v = clamp_i32(output_extent - extent) + near_margin;
    &&& i32::MIN <= v <= i32::MAX
    &&& i32::MIN <= v - far_margin <= i32::MAX
}

/// Width and height of a layer before the at-least-one clamp: desired (or current) extent,
/// stretched between the margins on doubly anchored axes.
pub open spec fn layer_extents(
    surface: LayerShellSurface,
    anchor: LayerAnchor,
    geometry: SurfaceGeometry,
    buffer_attached: bool,
    output_width: i32,
    output_height: i32,
) -> (int, int) {
    let current_width = if buffer_attached {
        geometry.width
    } else if surface.desired_width == 0 {
        1
    } else {
        surface.desired_width
    };
    let current_height = if buffer_attached {
        geometry.height
    } else if surface.desired_height == 0 {
        1
    } else {
        surface.desired_height
    };
    let horizontal = clamp_i32(surface.margins.left + surface.margins.right);
    let vertical = clamp_i32(surface.margins.top + surface.margins.bottom);
    (
        axis_extent(
            anchor.left && anchor.right,
            output_width as int,
            wrap_i32(base_extent(surface.desired_width, current_width)),
            horizontal,
        ),
        axis_extent(
            anchor.top && anchor.bottom,
            output_height as int,
            wrap_i32(base_extent(surface.desired_height, current_height)),
            vertical,
        ),
    )
}

/// The centring arithmetic on unanchored axes stays inside `i32`.
pub open spec fn arrangement_fits(
    surface: LayerShellSurface,
    anchor: LayerAnchor,
    geometry: SurfaceGeometry,
    buffer_attached: bool,
    output_width: i32,
    output_height: i32,
) -> bool {
    let (width, height) = layer_extents(
        surface,
        anchor,
        geometry,
        buffer_attached,
        output_width,
        output_height,
    );
    &&& (!anchor.left && !anchor.right) ==> centring_fits(
        output_width as int,
        width,
        surface.margins.left as int,
        surface.margins.right as int,
    )
    &&& (!anchor.top && !anchor.bottom) ==> centring_fits(
        output_height as int,
        height,
        surface.margins.top as int,
        surface.margins.bottom as int,
    )
}

/// Rectangle of a layer on an output of the given size.
pub open spec fn arranged_geometry(
    surface: LayerShellSurface,
    anchor: LayerAnchor,
    geometry: SurfaceGeometry,
    buffer_attached: bool,
    output_width: i32,
    output_height: i32,
) -> SurfaceGeometry {
    let (width, height) = layer_extents(
        surface,
        anchor,
        geometry,
        buffer_attached,
        output_width,
        output_height,
    );
    SurfaceGeometry {
        x: axis_position(
            anchor.left,
            anchor.right,
            output_width as int,
            width,
            surface.margins.left as int,
            surface.margins.right as int,
        ) as i32,
        y: axis_position(
            anchor.top,
            anchor.bottom,
            output_height as int,
            height,
            surface.margins.top as int,
            surface.margins.bottom as int,
        ) as i32,
        width: (if width < 1 {
            1
        } else {
            width
        }) as u32,
        height: (if height < 1 {
            1
        } else {
            height
        }) as u32,
    }
}

/// Arranges one layer surface on an output of the given size from its anchors, desired size and
/// margins.
pub fn arrange_layer(
    surface: &LayerShellSurface,
    anchor: &LayerAnchor,
    geometry: &mut SurfaceGeometry,
    buffer_attached: bool,
    output_width: i32,
    output_height: i32,
)
    requires
        arrangement_fits(
            *surface,
            *anchor,
            *old(geometry),
            buffer_attached,
            output_width,
            output_height,
        ),
    ensures
        *final(geometry) == arranged_geometry(
            *surface,
            *anchor,
            *old(geometry),
            buffer_attached,
            output_width,
            output_height,
        ),
{
    let ghost extents = layer_extents(
        *surface,
        *anchor,
        *geometry,
        buffer_attached,
        output_width,
        output_height,
    );
    if !buffer_attached {
        geometry.width = if surface.desired_width == 0 {
            1
        } else {
            surface.desired_width
        };
        geometry.height = if surface.desired_height == 0 {
            1
        } else {
            surface.desired_height
        };
    }
    let mut width: i32 = if surface.desired_width > 0 {
        u32_as_i32(surface.desired_width)
    } else {
        u32_as_i32(
            if geometry.width == 0 {
                1
            } else {
                geometry.width
            },
        )
    };
    let mut height: i32 = if surface.desired_height > 0 {
        u32_as_i32(surface.desired_height)
    } else {
        u32_as_i32(
            if geometry.height == 0 {
                1
            } else {
                geometry.height
            },
        )
    };
    let horizontal = i32_saturating_add(surface.margins.left, surface.margins.right);
    let vertical = i32_saturating_add(surface.margins.top, surface.margins.bottom);
    if anchor.left && anchor.right {
        width = i32_saturating_sub(output_width, horizontal);
    }
    if anchor.top && anchor.bottom {
        height = i32_saturating_sub(output_height, vertical);
    }
    assert(width == extents.0);
    assert(height == extents.1);
    geometry.width = (if width < 1 {
        1
    } else {
        width
    }) as u32;
    geometry.height = (if height < 1 {
        1
    } else {
        height
    }) as u32;
    geometry.x = if anchor.left {
        surface.margins.left
    } else if anchor.right {
        i32_saturating_sub(i32_saturating_sub(output_width, width), surface.margins.right)
    } else {
        (i32_saturating_sub(output_width, width) + surface.margins.left - surface.margins.right)
            / 2
    };
    geometry.y = if anchor.top {
        surface.margins.top
    } else if anchor.bottom {
        i32_saturating_sub(i32_saturating_sub(output_height, height), surface.margins.bottom)
    } else {
        (i32_saturating_sub(output_height, height) + surface.margins.top - surface.margins.bottom)
            / 2
    };
}

/// A layer anchored to the bottom edge but not the top one ends at the output's bottom edge less
/// its bottom margin, and one anchored to the top edge starts at its top margin; likewise for the
/// right and left edges (whenever the subtraction stays inside `i32` and the requested size fits
/// `i32`).
pub proof fn law_layer_sits_against_its_anchored_edge(
    surface: LayerShellSurface,
    anchor: LayerAnchor,
    geometry: SurfaceGeometry,
    buffer_attached: bool,
    output_width: i32,
    output_height: i32,
)
    requires
        surface.desired_width <= i32::MAX,
        surface.desired_height <= i32::MAX,
        geometry.width <= i32::MAX,
        geometry.height <= i32::MAX,
    ensures
        ({
            let placed = arranged_geometry(
                surface,
                anchor,
                geometry,
                buffer_attached,
                output_width,
                output_height,
            );
            &&& anchor.top ==> placed.y == surface.margins.top
            &&& anchor.left ==> placed.x == surface.margins.left
            &&& (anchor.bottom && !anchor.top && i32::MIN <= output_height - placed.height
                && i32::MIN <= output_height - placed.height - surface.margins.bottom <= i32::MAX)
                ==> placed.y + placed.height == output_height - surface.margins.bottom
            &&& (anchor.right && !anchor.left && i32::MIN <= output_width - placed.width
                && i32::MIN <= output_width - placed.width - surface.margins.right <= i32::MAX)
                ==> placed.x + placed.width == output_width - surface.margins.right
        }),
{
}

/// A layer anchored to two opposite edges spans the output between the two margins on that axis
/// (whenever the margins and the span stay inside `i32` and the span is at least one pixel).
pub proof fn law_layer_stretches_between_opposite_anchors(
    surface: LayerShellSurface,
    anchor: LayerAnchor,
    geometry: SurfaceGeometry,
    buffer_attached: bool,
    output_width: i32,
    output_height: i32,
)
    ensures
        ({
            let placed = arranged_geometry(
                surface,
                anchor,
                geometry,
                buffer_attached,
                output_width,
                output_height,
            );
            &&& (anchor.top && anchor.bottom && i32::MIN <= surface.margins.top + surface.margins.bottom
                <= i32::MAX && 1 <= output_height - surface.margins.top - surface.margins.bottom
                <= i32::MAX) ==> (placed.y == surface.margins.top && placed.height == output_height
                - surface.margins.top - surface.margins.bottom)
            &&& (anchor.left && anchor.right && i32::MIN <= surface.margins.left + surface.margins.right
                <= i32::MAX && 1 <= output_width - surface.margins.left - surface.margins.right
                <= i32::MAX) ==> (placed.x == surface.margins.left && placed.width == output_width
                - surface.margins.left - surface.margins.right)
        }),
{
}

/// A layer not stretched between two opposite anchors keeps the size it asked for on that axis
/// (when it asked for one that fits `i32`), and a layer anchored to neither edge of an axis is
/// centred: the gap above it (less the top margin) and the gap below it (less the bottom margin)
/// differ by at most one pixel, the odd pixel going below (likewise left and right), whenever the
/// centring arithmetic is non-negative and stays inside `i32`.
pub proof fn law_layer_keeps_its_size_and_centres(
    surface: LayerShellSurface,
    anchor: LayerAnchor,
    geometry: SurfaceGeometry,
    buffer_attached: bool,
    output_width: i32,
    output_height: i32,
)
    ensures
        ({
            let placed = arranged_geometry(
                surface,
                anchor,
                geometry,
                buffer_attached,
                output_width,
                output_height,
            );
            &&& (!(anchor.top && anchor.bottom) && 0 < surface.desired_height <= i32::MAX) ==> placed.height
                == surface.desired_height
            &&& (!(anchor.left && anchor.right) && 0 < surface.desired_width <= i32::MAX) ==> placed.width
                == surface.desired_width
            &&& (!anchor.top && !anchor.bottom && 0 < surface.desired_height <= i32::MAX && 0
                <= output_height - surface.desired_height + surface.margins.top - surface.margins.bottom
                <= i32::MAX && i32::MIN <= output_height - surface.desired_height && output_height - surface.desired_height
                + surface.margins.top <= i32::MAX)
                ==> {
                let above = placed.y - surface.margins.top;
                let below = output_height - surface.margins.bottom - (placed.y + placed.height);
                0 <= below - above <= 1
            }
            &&& (!anchor.left && !anchor.right && 0 < surface.desired_width <= i32::MAX && 0
                <= output_width - surface.desired_width + surface.margins.left - surface.margins.right
                <= i32::MAX && i32::MIN <= output_width - surface.desired_width && output_width - surface.desired_width
                + surface.margins.left <= i32::MAX)
                ==> {
                let before = placed.x - surface.margins.left;
                let after = output_width - surface.margins.right - (placed.x + placed.width);
                0 <= after - before <= 1
            }
        }),
{
}

/// Whether the centring arithmetic of a layer stays inside `i32` on the output it is arranged
/// against (see [`arrangement_fits`]); vacuous when it has no target.
pub open spec fn layer_fits_target(primary_id: Option<u64>, outputs: Seq<LayerOutput>, layer: LayerRecord) -> bool {
    match primary_choice(primary_id, outputs) {
        None => true,
        Some(primary) => match target_for_layer(
            layer.desired_output_name,
            layer.layer_output,
            primary,
            outputs.map_values(|output: LayerOutput| size_of(output)),
        ) {
            None => true,
            Some(target) => arrangement_fits(
                layer.surface,
                layer.anchor,
                layer.geometry,
                layer.buffer_attached,
                target.width,
                target.height,
            ),
        },
    }
}

/// New rectangles for every layer, in order: arranged against its target output, or `None` when
/// it has no target (detached) and keeps its rectangle. Nothing is arranged without outputs.
pub fn layer_arrangement_system(
    primary_id: Option<u64>,
    outputs: &Vec<LayerOutput>,
    layers: &Vec<LayerRecord>,
) -> (arranged: Vec<Option<SurfaceGeometry>>)
    requires
        forall|i: int| 0 <= i < layers@.len() ==> layer_fits_target(primary_id, outputs@, #[trigger] layers@[i]),
    ensures
        arranged@.len() == layers@.len(),
        outputs@.len() == 0 ==> forall|i: int| 0 <= i < arranged@.len() ==> arranged@[i] is None,
        forall|i: int|
            0 <= i < layers@.len() ==> {
                let sizes = outputs@.map_values(|output: LayerOutput| size_of(output));
                let layer = #[trigger] layers@[i];
                match primary_choice(primary_id, outputs@) {
                    None => arranged@[i] is None,
                    Some(primary) => match target_for_layer(
                        layer.desired_output_name,
                        layer.layer_output,
                        primary,
                        sizes,
                    ) {
                        None => arranged@[i] is None,
                        Some(target) => arranged@[i] == Some(
                            arranged_geometry(
                                layer.surface,
                                layer.anchor,
                                layer.geometry,
                                layer.buffer_attached,
                                target.width,
                                target.height,
                            ),
                        ),
                    },
                }
            },
{
    let sizes = output_sizes(outputs);
    let primary = primary_output_from_state_or_sizes(primary_id, &sizes, outputs);
    proof {
        lemma_primary_choice(primary_id, outputs@, primary);
    }
    let mut arranged: Vec<Option<SurfaceGeometry>> = Vec::new();
    assert(outputs@.len() == 0 ==> primary is None);
    let mut i: usize = 0;
    while i < layers.len()
        invariant
            i <= layers.len(),
            arranged@.len() == i,
            sizes@ == outputs@.map_values(|output: LayerOutput| size_of(output)),
            primary == primary_choice(primary_id, outputs@),
            forall|k: int| 0 <= k < layers@.len() ==> layer_fits_target(primary_id, outputs@, #[trigger] layers@[k]),
            forall|k: int|
                0 <= k < i ==> {
                    let layer = #[trigger] layers@[k];
                    match primary {
                        None => arranged@[k] is None,
                        Some(primary) => match target_for_layer(
                            layer.desired_output_name,
                            layer.layer_output,
                            primary,
                            sizes@,
                        ) {
                            None => arranged@[k] is None,
                            Some(target) => arranged@[k] == Some(
                                arranged_geometry(
                                    layer.surface,
                                    layer.anchor,
                                    layer.geometry,
                                    layer.buffer_attached,
                                    target.width,
                                    target.height,
                                ),
                            ),
                        },
                    }
                },
        decreases layers.len() - i,
    {
        let layer = &layers[i];
        assert(layer_fits_target(primary_id, outputs@, layers@[i as int]));
        let next = match primary {
            None => None,
            Some(primary) => match output_size_for_layer(
                &layer.desired_output_name,
                layer.layer_output,
                primary,
                &sizes,
            ) {
                None => None,
                Some(target) => {
                    let mut geometry = layer.geometry;
                    assert(arrangement_fits(
                        layer.surface,
                        layer.anchor,
                        layer.geometry,
                        layer.buffer_attached,
                        target.width,
                        target.height,
                    ));
                    arrange_layer(
                        &layer.surface,
                        &layer.anchor,
                        &mut geometry,
                        layer.buffer_attached,
                        target.width,
                        target.height,
                    );
                    Some(geometry)
                },
            },
        };
        arranged.push(next);
        i += 1;
    }
    proof {
        if outputs@.len() == 0 {
            assert forall|k: int| 0 <= k < arranged@.len() implies arranged@[k] is None by {
                let _ = layers@[k];
            }
        }
    }
    arranged
}

/// Primary output chosen for layer arrangement and work areas: the output with id `primary_id`
/// when it exists, else the largest output; `None` without outputs.
pub open spec fn primary_choice(primary_id: Option<u64>, outputs: Seq<LayerOutput>) -> Option<
    OutputSize,
> {
    let sizes = outputs.map_values(|output: LayerOutput| size_of(output));
    let by_id = match primary_id {
        Some(id) => crate::search::first_index(outputs, has_layer_output_id(id)),
        None => None,
    };
    match by_id {
        Some(i) => Some(size_of(outputs[i])),
        None => if sizes.len() == 0 {
            None
        } else {
            Some(largest_prefix(sizes, sizes.len() as int))
        },
    }
}

proof fn lemma_primary_choice(
    primary_id: Option<u64>,
    outputs: Seq<LayerOutput>,
    result: Option<OutputSize>,
)
    requires
        ({
            let sizes = outputs.map_values(|output: LayerOutput| size_of(output));
            let by_id = match primary_id {
                Some(id) => crate::search::first_index(outputs, has_layer_output_id(id)),
                None => None,
            };
            match by_id {
                Some(i) => result == Some(size_of(outputs[i])),
                None => (sizes.len() == 0 <==> result is None) && (result matches Some(best)
                    ==> best == largest_prefix(sizes, sizes.len() as int)),
            }
        }),
    ensures
        result == primary_choice(primary_id, outputs),
{
}

/// Work area left on one output after an exclusive zone of `zone` pixels claimed by a layer with
/// the given anchors and rectangle: only layers anchored to exactly one edge plus both adjacent
/// edges reserve space, along that edge.
pub open spec fn shrunk_area(area: WorkArea, anchor: LayerAnchor, geometry: SurfaceGeometry, zone: i32) -> WorkArea {
    let left = area.x as int;
    let top = area.y as int;
    let right = clamp_i32(area.x + wrap_i32(area.width as int));
    let bottom = clamp_i32(area.y + wrap_i32(area.height as int));
    let (left, top, right, bottom) = if anchor.top && anchor.left && anchor.right && !anchor.bottom {
        let edge = clamp_i32(geometry.y + zone);
        (left, if top > edge { top } else { edge }, right, bottom)
    } else if anchor.bottom && anchor.left && anchor.right && !anchor.top {
        let edge = clamp_i32(clamp_i32(geometry.y + wrap_i32(geometry.height as int)) - zone);
        (left, top, right, if bottom < edge { bottom } else { edge })
    } else if anchor.left && anchor.top && anchor.bottom && !anchor.right {
        let edge = clamp_i32(geometry.x + zone);
        (if left > edge { left } else { edge }, top, right, bottom)
    } else if anchor.right && anchor.top && anchor.bottom && !anchor.left {
        let edge = clamp_i32(clamp_i32(geometry.x + wrap_i32(geometry.width as int)) - zone);
        (left, top, if right < edge { right } else { edge }, bottom)
    } else {
        (left, top, right, bottom)
    };
    let width = clamp_i32(right - left);
    let height = clamp_i32(bottom - top);
    WorkArea {
        x: left as i32,
        y: top as i32,
        width: (if width < 1 { 1 } else { width }) as u32,
        height: (if height < 1 { 1 } else { height }) as u32,
    }
}

/// Shrinks a work area by one layer's exclusive zone.
pub fn shrink_work_area(area: WorkArea, anchor: &LayerAnchor, geometry: &SurfaceGeometry, zone: i32) -> (result: WorkArea)
    ensures
        result == shrunk_area(area, *anchor, *geometry, zone),
{
    let mut left = area.x;
    let mut top = area.y;
    let mut right = i32_saturating_add(area.x, u32_as_i32(area.width));
    let mut bottom = i32_saturating_add(area.y, u32_as_i32(area.height));
    if anchor.top && anchor.left && anchor.right && !anchor.bottom {
        let edge = i32_saturating_add(geometry.y, zone);
        top = if top > edge { top } else { edge };
    } else if anchor.bottom && anchor.left && anchor.right && !anchor.top {
        let edge = i32_saturating_sub(i32_saturating_add(geometry.y, u32_as_i32(geometry.height)), zone);
        bottom = if bottom < edge { bottom } else { edge };
    } else if anchor.left && anchor.top && anchor.bottom && !anchor.right {
        let edge = i32_saturating_add(geometry.x, zone);
        left = if left > edge { left } else { edge };
    } else if anchor.right && anchor.top && anchor.bottom && !anchor.left {
        let edge = i32_saturating_sub(i32_saturating_add(geometry.x, u32_as_i32(geometry.width)), zone);
        right = if right < edge { right } else { edge };
    }
    let width = i32_saturating_sub(right, left);
    let height = i32_saturating_sub(bottom, top);
    WorkArea {
        x: left,
        y: top,
        width: (if width < 1 { 1 } else { width }) as u32,
        height: (if height < 1 { 1 } else { height }) as u32,
    }
}

/// A work area whose sides are at least one pixel and whose far edges stay inside `i32`.
pub open spec fn area_in_range(area: WorkArea) -> bool {
    &&& 1 <= area.width <= i32::MAX
    &&& 1 <= area.height <= i32::MAX
    &&& area.x + area.width <= i32::MAX
    &&& area.y + area.height <= i32::MAX
}

/// A panel along the bottom edge (anchored bottom, left and right, not top) keeps the work area's
/// top, left and width, and the area ends at the nearer of its old bottom and the panel's bottom
/// edge less the zone, so it never reaches into the reserved strip (whenever that edge lies below
/// the area's top and the arithmetic stays inside `i32`); a panel along the top edge moves the
/// area's top down to the panel's top plus the zone, keeping its bottom.
pub proof fn law_edge_panel_reserves_its_zone_vertically(
    area: WorkArea,
    anchor: LayerAnchor,
    geometry: SurfaceGeometry,
    zone: i32,
)
    requires
        area_in_range(area),
        geometry.height <= i32::MAX,
    ensures
        ({
            let result = shrunk_area(area, anchor, geometry, zone);
            let bottom_edge = geometry.y + geometry.height - zone;
            let top_edge = geometry.y + zone;
            &&& (anchor.bottom && anchor.left && anchor.right && !anchor.top
                && geometry.y + geometry.height <= i32::MAX && i32::MIN <= bottom_edge <= i32::MAX
                && area.y < bottom_edge) ==> {
                &&& result.x == area.x
                &&& result.width == area.width
                &&& result.y == area.y
                &&& result.y + result.height == (if bottom_edge < area.y + area.height {
                    bottom_edge
                } else {
                    area.y + area.height
                })
            }
            &&& (anchor.top && anchor.left && anchor.right && !anchor.bottom
                && i32::MIN <= top_edge <= i32::MAX && top_edge < area.y + area.height) ==> {
                &&& result.x == area.x
                &&& result.width == area.width
                &&& result.y == (if top_edge > area.y { top_edge } else { area.y as int })
                &&& result.y + result.height == area.y + area.height
            }
        }),
{
}

/// A panel along the right edge (anchored right, top and bottom, not left) pulls the work area's
/// right edge in to the panel's right edge less the zone, and one along the left edge pushes the
/// area's left edge to the panel's left plus the zone, leaving the vertical extent alone
/// (whenever the new edge stays inside the area and the arithmetic stays inside `i32`).
pub proof fn law_edge_panel_reserves_its_zone_horizontally(
    area: WorkArea,
    anchor: LayerAnchor,
    geometry: SurfaceGeometry,
    zone: i32,
)
    requires
        area_in_range(area),
        geometry.width <= i32::MAX,
    ensures
        ({
            let result = shrunk_area(area, anchor, geometry, zone);
            let right_edge = geometry.x + geometry.width - zone;
            let left_edge = geometry.x + zone;
            &&& (anchor.right && anchor.top && anchor.bottom && !anchor.left
                && geometry.x + geometry.width <= i32::MAX && i32::MIN <= right_edge <= i32::MAX
                && area.x < right_edge) ==> {
                &&& result.y == area.y
                &&& result.height == area.height
                &&& result.x == area.x
                &&& result.x + result.width == (if right_edge < area.x + area.width {
                    right_edge
                } else {
                    area.x + area.width
                })
            }
            &&& (anchor.left && anchor.top && anchor.bottom && !anchor.right
                && i32::MIN <= left_edge <= i32::MAX && left_edge < area.x + area.width) ==> {
                &&& result.y == area.y
                &&& result.height == area.height
                &&& result.x == (if left_edge > area.x { left_edge } else { area.x as int })
                &&& result.x + result.width == area.x + area.width
            }
        }),
{
}

/// A layer that is not anchored to exactly one edge plus both edges next to it (a corner widget,
/// a centred dialog, a layer stretched across the whole output) reserves nothing: the work area
/// comes back as it was.
pub proof fn law_other_anchors_reserve_nothing(
    area: WorkArea,
    anchor: LayerAnchor,
    geometry: SurfaceGeometry,
    zone: i32,
)
    requires
        area_in_range(area),
        !(anchor.top && anchor.left && anchor.right && !anchor.bottom),
        !(anchor.bottom && anchor.left && anchor.right && !anchor.top),
        !(anchor.left && anchor.top && anchor.bottom && !anchor.right),
        !(anchor.right && anchor.top && anchor.bottom && !anchor.left),
    ensures
        shrunk_area(area, anchor, geometry, zone) == area,
{
}

/// Full-output work area of a size entry.
pub open spec fn full_area(size: OutputSize) -> (u64, WorkArea) {
    (
        size.entity,
        WorkArea {
            x: 0,
            y: 0,
            width: (if size.width < 1 { 1 } else { size.width as int }) as u32,
            height: (if size.height < 1 { 1 } else { size.height as int }) as u32,
        },
    )
}

/// Work area entry of the given output entity.
pub open spec fn has_area_entity(entity: u64) -> spec_fn((u64, WorkArea)) -> bool {
    |entry: (u64, WorkArea)| entry.0 == entity
}

/// Per-output work areas after the first `n` layers reserved their exclusive zones.
pub open spec fn areas_after(
    sizes: Seq<OutputSize>,
    layers: Seq<LayerRecord>,
    primary: OutputSize,
    n: int,
) -> Seq<(u64, WorkArea)>
    decreases n,
{
    if n <= 0 {
        sizes.map_values(|size: OutputSize| full_area(size))
    } else {
        let previous = areas_after(sizes, layers, primary, n - 1);
        let layer = layers[n - 1];
        if !layer.buffer_attached || layer.surface.exclusive_zone <= 0 {
            previous
        } else {
            match target_for_layer(layer.desired_output_name, layer.layer_output, primary, sizes) {
                None => previous,
                Some(target) => match crate::search::first_index(previous, has_area_entity(target.entity)) {
                    None => previous,
                    Some(k) => previous.update(
                        k,
                        (target.entity, shrunk_area(previous[k].1, layer.anchor, layer.geometry, layer.surface.exclusive_zone)),
                    ),
                },
            }
        }
    }
}

/// Work areas derived from the layer surfaces.
#[derive(Clone, Debug, PartialEq, Eq)]
pub struct WorkAreas {
    /// Work area of every output entity, in output order.
    pub per_output: Vec<(u64, WorkArea)>,
    /// Work area of the primary output (the global work area).
    pub primary: WorkArea,
}

/// Derives every output's work area by subtracting the exclusive zones of attached layers that
/// target it, and the global work area of the primary output. `None` without outputs.
pub fn work_area_system(
    primary_id: Option<u64>,
    outputs: &Vec<LayerOutput>,
    layers: &Vec<LayerRecord>,
) -> (result: Option<WorkAreas>)
    ensures
        ({
            let sizes = outputs@.map_values(|output: LayerOutput| size_of(output));
            match primary_choice(primary_id, outputs@) {
                None => result is None,
                Some(primary) => {
                    let areas = areas_after(sizes, layers@, primary, layers@.len() as int);
                    &&& result is Some
                    &&& result->0.per_output@ == areas
                    &&& result->0.primary == match crate::search::first_index(areas, has_area_entity(primary.entity)) {
                        Some(k) => areas[k].1,
                        None => full_area(primary).1,
                    }
                },
            }
        }),
{
    let sizes = output_sizes(outputs);
    let primary = primary_output_from_state_or_sizes(primary_id, &sizes, outputs);
    proof {
        lemma_primary_choice(primary_id, outputs@, primary);
    }
    let primary = match primary {
        Some(primary) => primary,
        None => return None,
    };
    let mut areas: Vec<(u64, WorkArea)> = Vec::new();
    let mut i: usize = 0;
    while i < sizes.len()
        invariant
            i <= sizes.len(),
            areas@ == sizes@.take(i as int).map_values(|size: OutputSize| full_area(size)),
        decreases sizes.len() - i,
    {
        let size = sizes[i];
        let width: i32 = if size.width < 1 { 1 } else { size.width };
        let height: i32 = if size.height < 1 { 1 } else { size.height };
        areas.push((size.entity, WorkArea { x: 0, y: 0, width: width as u32, height: height as u32 }));
        proof {
            assert(sizes@.take(i + 1) == sizes@.take(i as int).push(sizes@[i as int]));
        }
        i += 1;
    }
    proof {
        assert(sizes@.take(i as int) == sizes@);
    }
    let mut n: usize = 0;
    while n < layers.len()
        invariant
            n <= layers.len(),
            sizes@ == outputs@.map_values(|output: LayerOutput| size_of(output)),
            areas@ == areas_after(sizes@, layers@, primary, n as int),
        decreases layers.len() - n,
    {
        let layer = &layers[n];
        if layer.buffer_attached && layer.surface.exclusive_zone > 0 {
            if let Some(target) = output_size_for_layer(&layer.desired_output_name, layer.layer_output, primary, &sizes) {
                if let Some(k) = find_area(&areas, target.entity) {
                    let shrunk = shrink_work_area(areas[k].1, &layer.anchor, &layer.geometry, layer.surface.exclusive_zone);
                    areas.set(k, (target.entity, shrunk));
                }
            }
        }
        n += 1;
    }
    let primary_area = match find_area(&areas, primary.entity) {
        Some(k) => areas[k].1,
        None => {
            let width: i32 = if primary.width < 1 { 1 } else { primary.width };
            let height: i32 = if primary.height < 1 { 1 } else { primary.height };
            WorkArea { x: 0, y: 0, width: width as u32, height: height as u32 }
        },
    };
    Some(WorkAreas { per_output: areas, primary: primary_area })
}

fn find_area(areas: &Vec<(u64, WorkArea)>, entity: u64) -> (result: Option<usize>)
    ensures
        match result {
            Some(k) => crate::search::first_index(areas@, has_area_entity(entity)) == Some(k as int) && k < areas@.len(),
            None => crate::search::first_index(areas@, has_area_entity(entity)) is None,
        },
{
    let mut k: usize = 0;
    while k < areas.len()
        invariant
            k <= areas.len(),
            crate::search::first_index(areas@, has_area_entity(entity)) == crate::search::first_index_from(areas@, has_area_entity(entity), k as int),
        decreases areas.len() - k,
    {
        if areas[k].0 == entity {
            return Some(k);
        }
        k += 1;
    }
    None
}

} // verus!

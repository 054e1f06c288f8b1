//! Shared drawing geometry for all graph types: the reference grid, the
//! y-axis value labels, and the dashed average line. Everything here is a
//! pure function from configuration and values to pixel-unit geometry; the
//! host adapter turns it into strokes, fills and text.

use vstd::prelude::*;
use crate::binning::div_floor;
use crate::geometry::{PointPx, RectPx, SegmentPx, COORD_LIMIT};
use crate::mapper::VALUE_LIMIT;

verus! {

/// Common grid configuration, in pixel units.
#[derive(Debug, Clone, Copy, PartialEq, Eq, Structural)]
pub struct GridConfig {
    pub padding: i64,
    pub chart_width: i64,
    pub chart_height: i64,
    pub horizontal_lines: u32,
    pub vertical_lines: u32,
}

impl Default for GridConfig {
    fn default() -> (r: GridConfig)
        ensures
            r == (GridConfig {
                padding: 40i64,
                chart_width: 0i64,
                chart_height: 0i64,
                horizontal_lines: 10u32,
                vertical_lines: 10u32,
            }),
    {
        GridConfig {
            padding: 40,
            chart_width: 0,
            chart_height: 0,
            horizontal_lines: 10,
            vertical_lines: 10,
        }
    }
}

/// One grid line; every second line is a major one, drawn stronger.
#[derive(Debug, Clone, Copy, PartialEq, Eq, Structural)]
pub struct GridLine {
    pub segment: SegmentPx,
    pub major: bool,
}

/// The grid of a chart: evenly spaced reference lines and a border.
#[derive(Debug, Clone, PartialEq, Eq)]
pub struct GridGeometry {
    pub horizontal: Vec<GridLine>,
    pub vertical: Vec<GridLine>,
    pub border: RectPx,
}

/// A y-axis label: the value shown beside the axis at height `y`, over a
/// small background pane for readability.
#[derive(Debug, Clone, Copy, PartialEq, Eq, Structural)]
pub struct AxisLabel {
    pub y: i64,
    pub value: i64,
    pub background: RectPx,
    pub text_position: PointPx,
}

/// The dashed average reference line: its height, its dash segments, and
/// the value its label shows.
#[derive(Debug, Clone, PartialEq, Eq)]
pub struct AverageLineGeometry {
    pub y: i64,
    pub segments: Vec<SegmentPx>,
    pub value: i64,
}

/// A grid configuration the geometry arithmetic stays exact for.
pub open spec fn grid_config_wf(config: GridConfig) -> bool {
    &&& 1 <= config.horizontal_lines
    &&& 1 <= config.vertical_lines
    &&& -COORD_LIMIT <= config.padding <= COORD_LIMIT
    &&& -COORD_LIMIT <= config.chart_width <= COORD_LIMIT
    &&& -COORD_LIMIT <= config.chart_height <= COORD_LIMIT
}

/// The `i`-th horizontal grid line.
pub open spec fn grid_horizontal_spec(config: GridConfig, i: int) -> GridLine {
    let y = config.padding + (i * config.chart_height) / (config.horizontal_lines as int);
    GridLine {
        segment: SegmentPx {
            from: PointPx { x: config.padding, y: y as i64 },
            to: PointPx { x: (config.padding + config.chart_width) as i64, y: y as i64 },
        },
        major: i % 2 == 0,
    }
}

/// The `i`-th vertical grid line.
pub open spec fn grid_vertical_spec(config: GridConfig, i: int) -> GridLine {
    let x = config.padding + (i * config.chart_width) / (config.vertical_lines as int);
    GridLine {
        segment: SegmentPx {
            from: PointPx { x: x as i64, y: config.padding },
            to: PointPx { x: x as i64, y: (config.padding + config.chart_height) as i64 },
        },
        major: i % 2 == 0,
    }
}

/// What a computed grid holds for its configuration.
pub open spec fn grid_geometry_matches(config: GridConfig, g: GridGeometry) -> bool {
    &&& g.horizontal@.len() == config.horizontal_lines + 1
    &&& (forall|i: int|
        0 <= i <= config.horizontal_lines ==> g.horizontal@[i] == grid_horizontal_spec(config, i))
    &&& g.vertical@.len() == config.vertical_lines + 1
    &&& (forall|i: int|
        0 <= i <= config.vertical_lines ==> g.vertical@[i] == grid_vertical_spec(config, i))
    &&& g.border == (RectPx {
        x: config.padding,
        y: config.padding,
        width: config.chart_width,
        height: config.chart_height,
    })
}

/// Compute a standard grid with major and minor lines and a chart border.
pub fn compute_grid(config: &GridConfig) -> (g: GridGeometry)
    requires
        grid_config_wf(*config),
    ensures
        grid_geometry_matches(*config, g),
{
    let mut horizontal: Vec<GridLine> = Vec::new();
    let h: u64 = config.horizontal_lines as u64;
    let mut i: u64 = 0;
    while i <= h
        invariant
            grid_config_wf(*config),
            h == config.horizontal_lines,
            0 <= i <= h + 1,
            horizontal@.len() == i,
            forall|j: int| 0 <= j < i ==> horizontal@[j] == grid_horizontal_spec(*config, j),
        decreases h - i + 1,
    {
        proof {
            assert(-0x4000_0000_0000_0000 <= (i as int) * (config.chart_height as int)
                <= 0x4000_0000_0000_0000) by (nonlinear_arith)
                requires
                    0 <= i <= 0x1_0000_0001,
                    -0x100000 <= config.chart_height <= 0x100000,
            ;
        }
        let q: i64 = div_floor((i as i64) * config.chart_height, h as i64);
        proof {
            crate::binning::lemma_scaled_div_between(
                i as int,
                config.chart_height as int,
                h as int,
            );
        }
        let y: i64 = config.padding + q;
        horizontal.push(
            GridLine {
                segment: SegmentPx {
                    from: PointPx { x: config.padding, y },
                    to: PointPx { x: config.padding + config.chart_width, y },
                },
                major: i % 2 == 0,
            },
        );
        i = i + 1;
    }
    let mut vertical: Vec<GridLine> = Vec::new();
    let v: u64 = config.vertical_lines as u64;
    let mut j: u64 = 0;
    while j <= v
        invariant
            grid_config_wf(*config),
            v == config.vertical_lines,
            0 <= j <= v + 1,
            vertical@.len() == j,
            forall|k: int| 0 <= k < j ==> vertical@[k] == grid_vertical_spec(*config, k),
        decreases v - j + 1,
    {
        proof {
            assert(-0x4000_0000_0000_0000 <= (j as int) * (config.chart_width as int)
                <= 0x4000_0000_0000_0000) by (nonlinear_arith)
                requires
                    0 <= j <= 0x1_0000_0001,
                    -0x100000 <= config.chart_width <= 0x100000,
            ;
        }
        let q: i64 = div_floor((j as i64) * config.chart_width, v as i64);
        proof {
            crate::binning::lemma_scaled_div_between(
                j as int,
                config.chart_width as int,
                v as int,
            );
        }
        let x: i64 = config.padding + q;
        vertical.push(
            GridLine {
                segment: SegmentPx {
                    from: PointPx { x, y: config.padding },
                    to: PointPx { x, y: config.padding + config.chart_height },
                },
                major: j % 2 == 0,
            },
        );
        j = j + 1;
    }
    GridGeometry {
        horizontal,
        vertical,
        border: RectPx {
            x: config.padding,
            y: config.padding,
            width: config.chart_width,
            height: config.chart_height,
        },
    }
}

/// The `i`-th of `steps + 1` y-axis labels: the value scale runs from the
/// greatest value at the top to the least at the bottom.
pub open spec fn axis_label_spec(
    padding: int,
    chart_height: int,
    min_value: int,
    max_value: int,
    steps: int,
    i: int,
) -> AxisLabel {
    let y = padding + (i * chart_height) / steps;
    let value = max_value - (i * (max_value - min_value)) / steps;
    AxisLabel {
        y: y as i64,
        value: value as i64,
        background: RectPx {
            x: (padding - 37) as i64,
            y: (y - 8) as i64,
            width: 35i64,
            height: 16i64,
        },
        text_position: PointPx { x: (padding - 5) as i64, y: y as i64 },
    }
}

/// What computed y-axis labels hold for their scale.
pub open spec fn axis_labels_match(
    padding: int,
    chart_height: int,
    min_value: int,
    max_value: int,
    steps: int,
    labels: Seq<AxisLabel>,
) -> bool {
    &&& labels.len() == steps + 1
    &&& (forall|i: int|
        0 <= i <= steps ==> labels[i] == axis_label_spec(
            padding,
            chart_height,
            min_value,
            max_value,
            steps,
            i,
        ))
}

/// Compute value labels for the y-axis.
pub fn compute_y_axis_labels(
    padding: i64,
    chart_height: i64,
    min_value: i64,
    max_value: i64,
    steps: u32,
) -> (r: Vec<AxisLabel>)
    requires
        1 <= steps,
        -COORD_LIMIT <= padding <= COORD_LIMIT,
        -COORD_LIMIT <= chart_height <= COORD_LIMIT,
        -VALUE_LIMIT <= min_value <= max_value,
        max_value <= VALUE_LIMIT,
    ensures
        axis_labels_match(
            padding as int,
            chart_height as int,
            min_value as int,
            max_value as int,
            steps as int,
            r@,
        ),
{
    let mut out: Vec<AxisLabel> = Vec::new();
    let range: i64 = max_value - min_value;
    let steps64: u64 = steps as u64;
    let mut i: u64 = 0;
    while i <= steps64
        invariant
            1 <= steps,
            -COORD_LIMIT <= padding <= COORD_LIMIT,
            -COORD_LIMIT <= chart_height <= COORD_LIMIT,
            -VALUE_LIMIT <= min_value <= max_value <= VALUE_LIMIT,
            range == max_value - min_value,
            steps64 == steps,
            0 <= i <= steps64 + 1,
            out@.len() == i,
            forall|j: int|
                0 <= j < i ==> out@[j] == axis_label_spec(
                    padding as int,
                    chart_height as int,
                    min_value as int,
                    max_value as int,
                    steps as int,
                    j,
                ),
        decreases steps64 - i + 1,
    {
        proof {
            assert(-0x4000_0000_0000_0000 <= (i as int) * (chart_height as int)
                <= 0x4000_0000_0000_0000) by (nonlinear_arith)
                requires
                    0 <= i <= 0x1_0000_0001,
                    -0x100000 <= chart_height <= 0x100000,
            ;
            assert(0 <= (i as int) * (range as int) <= 0x4000_0000_0000_0000)
                by (nonlinear_arith)
                requires
                    0 <= i <= 0x1_0000_0001,
                    0 <= range <= 0x200000,
            ;
        }
        let qy: i64 = div_floor((i as i64) * chart_height, steps as i64);
        let qv: i64 = div_floor((i as i64) * range, steps as i64);
        proof {
            crate::binning::lemma_scaled_div_between(i as int, chart_height as int, steps as int);
            vstd::arithmetic::div_mod::lemma_div_pos_is_pos(
                (i as int) * (range as int),
                steps as int,
            );
            assert((i as int) * (range as int) <= (steps as int) * (range as int))
                by (nonlinear_arith)
                requires
                    0 <= i <= steps,
                    0 <= range,
            ;
            vstd::arithmetic::div_mod::lemma_div_is_ordered(
                (i as int) * (range as int),
                (steps as int) * (range as int),
                steps as int,
            );
            assert(((steps as int) * (range as int)) / (steps as int) == range) by {
                vstd::arithmetic::mul::lemma_mul_is_commutative(steps as int, range as int);
                vstd::arithmetic::div_mod::lemma_fundamental_div_mod_converse_div(
                    (steps as int) * (range as int),
                    steps as int,
                    range as int,
                    0,
                );
            }
        }
        let y: i64 = padding + qy;
        let value: i64 = max_value - qv;
        out.push(
            AxisLabel {
                y,
                value,
                background: RectPx { x: padding - 37, y: y - 8, width: 35, height: 16 },
                text_position: PointPx { x: padding - 5, y },
            },
        );
        i = i + 1;
    }
    out
}

/// The height of the average line: the average mapped through the same
/// linear value-to-pixel scale the points use.
pub open spec fn average_line_y_spec(
    padding: int,
    chart_height: int,
    average: int,
    min_value: int,
    range: int,
) -> int {
    padding + chart_height - ((average - min_value) * chart_height) / range
}

/// The `i`-th dash of the average line: fifteen pixels of stroke, five of
/// gap, clipped to the chart's right edge.
pub open spec fn average_segment_spec(padding: int, chart_width: int, y: int, i: int) -> SegmentPx {
    let start_x = padding + i * 20;
    let end_x = if start_x + 15 <= padding + chart_width {
        start_x + 15
    } else {
        padding + chart_width
    };
    SegmentPx {
        from: PointPx { x: start_x as i64, y: y as i64 },
        to: PointPx { x: end_x as i64, y: y as i64 },
    }
}

/// What a computed average line holds for its scale.
pub open spec fn average_line_matches(
    padding: int,
    chart_width: int,
    chart_height: int,
    average: int,
    min_value: int,
    range: int,
    line: AverageLineGeometry,
) -> bool {
    let y = average_line_y_spec(padding, chart_height, average, min_value, range);
    &&& line.y == y
    &&& line.value == average
    &&& line.segments@.len() == (if chart_width >= 0 {
        chart_width / 20
    } else {
        0
    })
    &&& (forall|i: int|
        0 <= i < line.segments@.len() ==> line.segments@[i] == average_segment_spec(
            padding,
            chart_width,
            y,
            i,
        ))
}

/// Compute the dashed average reference line across the chart, or nothing
/// when the value range is degenerate.
pub fn compute_average_line(
    padding: i64,
    chart_width: i64,
    chart_height: i64,
    average: i64,
    min_value: i64,
    max_value: i64,
) -> (r: Option<AverageLineGeometry>)
    requires
        0 <= padding <= COORD_LIMIT,
        -COORD_LIMIT <= chart_width <= COORD_LIMIT,
        -COORD_LIMIT <= chart_height <= COORD_LIMIT,
        -VALUE_LIMIT <= min_value <= average <= max_value,
        max_value <= VALUE_LIMIT,
    ensures
        (max_value == min_value) <==> r is None,
        r matches Some(line) ==> average_line_matches(
            padding as int,
            chart_width as int,
            chart_height as int,
            average as int,
            min_value as int,
            (max_value - min_value) as int,
            line,
        ),
{
    let range: i64 = max_value - min_value;
    if range == 0 {
        return None;
    }
    proof {
        assert(-0x4000_0000_0000_0000 <= ((average - min_value) as int) * (chart_height as int)
            <= 0x4000_0000_0000_0000) by (nonlinear_arith)
            requires
                0 <= (average - min_value) as int <= 0x200000,
                -0x100000 <= chart_height <= 0x100000,
        ;
    }
    let scaled: i64 = div_floor((average - min_value) * chart_height, range);
    proof {
        crate::binning::lemma_scaled_div_between(
            (average - min_value) as int,
            chart_height as int,
            range as int,
        );
    }
    let y: i64 = padding + chart_height - scaled;
    let num_segments: i64 = if chart_width >= 0 {
        ((chart_width as u64) / 20) as i64
    } else {
        0
    };
    proof {
        if chart_width >= 0 {
            vstd::arithmetic::div_mod::lemma_div_nonincreasing(chart_width as int, 20);
            vstd::arithmetic::div_mod::lemma_div_pos_is_pos(chart_width as int, 20);
        }
    }
    let mut segments: Vec<SegmentPx> = Vec::new();
    let mut i: i64 = 0;
    while i < num_segments
        invariant
            0 <= padding <= COORD_LIMIT,
            -COORD_LIMIT <= chart_width <= COORD_LIMIT,
            0 <= num_segments <= COORD_LIMIT,
            num_segments == (if chart_width >= 0 {
                (chart_width as int) / 20
            } else {
                0
            }),
            0 <= i <= num_segments,
            segments@.len() == i,
            forall|j: int|
                0 <= j < i ==> segments@[j] == average_segment_spec(
                    padding as int,
                    chart_width as int,
                    y as int,
                    j,
                ),
        decreases num_segments - i,
    {
        let start_x: i64 = padding + i * 20;
        let end_x: i64 = if start_x + 15 <= padding + chart_width {
            start_x + 15
        } else {
            padding + chart_width
        };
        segments.push(
            SegmentPx { from: PointPx { x: start_x, y }, to: PointPx { x: end_x, y } },
        );
        i = i + 1;
    }
    Some(AverageLineGeometry { y, segments, value: average })
}

} // verus!

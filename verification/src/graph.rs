//! The multi-level sparkline renderer.
//!
//! Every sample of a snapshot is graded, consecutive newest-first grade
//! pairs are packed into one glyph each from a sixteen-glyph alphabet, and
//! the finished line is reversed so that it reads oldest-left, newest-right.

use vstd::prelude::*;

use crate::grading::CpuUsageGrading;
use crate::grading::MeasurementGrade;
use crate::grading::MeasurementGrading;
use crate::grading::NetUsageRateGrading;
use crate::grading::spec_cpu_grade;
use crate::grading::spec_net_grade;
use crate::metrics::Metrics;
use crate::metrics::MetricsView;
use crate::resource_monitor::MeasurementType;

verus! {

/// The glyph drawn for one pair of grades, the more recent one first.
///
/// Higher grades on either axis fill in more of the glyph's cells, giving a
/// dual-axis intensity look.
pub open spec fn spec_sigil(newer: MeasurementGrade, older: MeasurementGrade) -> char {
    match (newer, older) {
        (MeasurementGrade::Idle, MeasurementGrade::Idle) => '⣀',
        (MeasurementGrade::Idle, MeasurementGrade::Low) => '⣄',
        (MeasurementGrade::Idle, MeasurementGrade::Medium) => '⣆',
        (MeasurementGrade::Idle, MeasurementGrade::High) => '⣇',
        (MeasurementGrade::Low, MeasurementGrade::Idle) => '⣠',
        (MeasurementGrade::Low, MeasurementGrade::Low) => '⣤',
        (MeasurementGrade::Low, MeasurementGrade::Medium) => '⣦',
        (MeasurementGrade::Low, MeasurementGrade::High) => '⣧',
        (MeasurementGrade::Medium, MeasurementGrade::Idle) => '⣰',
        (MeasurementGrade::Medium, MeasurementGrade::Low) => '⣴',
        (MeasurementGrade::Medium, MeasurementGrade::Medium) => '⣶',
        (MeasurementGrade::Medium, MeasurementGrade::High) => '⣷',
        (MeasurementGrade::High, MeasurementGrade::Idle) => '⣸',
        (MeasurementGrade::High, MeasurementGrade::Low) => '⣼',
        (MeasurementGrade::High, MeasurementGrade::Medium) => '⣾',
        (MeasurementGrade::High, MeasurementGrade::High) => '⣿',
    }
}

/// Look up the glyph for one pair of grades, the more recent one first.
pub fn sigil(newer: MeasurementGrade, older: MeasurementGrade) -> (c: char)
    ensures
        c == spec_sigil(newer, older),
{
    match (newer, older) {
        (MeasurementGrade::Idle, MeasurementGrade::Idle) => '⣀',
        (MeasurementGrade::Idle, MeasurementGrade::Low) => '⣄',
        (MeasurementGrade::Idle, MeasurementGrade::Medium) => '⣆',
        (MeasurementGrade::Idle, MeasurementGrade::High) => '⣇',
        (MeasurementGrade::Low, MeasurementGrade::Idle) => '⣠',
        (MeasurementGrade::Low, MeasurementGrade::Low) => '⣤',
        (MeasurementGrade::Low, MeasurementGrade::Medium) => '⣦',
        (MeasurementGrade::Low, MeasurementGrade::High) => '⣧',
        (MeasurementGrade::Medium, MeasurementGrade::Idle) => '⣰',
        (MeasurementGrade::Medium, MeasurementGrade::Low) => '⣴',
        (MeasurementGrade::Medium, MeasurementGrade::Medium) => '⣶',
        (MeasurementGrade::Medium, MeasurementGrade::High) => '⣷',
        (MeasurementGrade::High, MeasurementGrade::Idle) => '⣸',
        (MeasurementGrade::High, MeasurementGrade::Low) => '⣼',
        (MeasurementGrade::High, MeasurementGrade::Medium) => '⣾',
        (MeasurementGrade::High, MeasurementGrade::High) => '⣿',
    }
}

/// The grades of a newest-first sequence of CPU samples.
pub open spec fn spec_cpu_grades(samples: Seq<int>) -> Seq<MeasurementGrade> {
    samples.map_values(|s: int| spec_cpu_grade(s))
}

/// The grades of a newest-first sequence of network-rate samples.
pub open spec fn spec_net_grades(samples: Seq<(int, int)>) -> Seq<MeasurementGrade> {
    samples.map_values(|s: (int, int)| spec_net_grade(s.0, s.1))
}

/// The grades of the selected metric's samples in a snapshot.
pub open spec fn spec_metric_grades(metrics: MetricsView, measurement_type: MeasurementType) -> Seq<
    MeasurementGrade,
> {
    match measurement_type {
        MeasurementType::Cpu => spec_cpu_grades(metrics.cpu),
        MeasurementType::Net => spec_net_grades(metrics.net),
    }
}

/// The glyphs of consecutive grade pairs, in newest-first pair order.  An
/// odd trailing grade, which a caller-supplied even capacity never produces,
/// is dropped.
pub open spec fn spec_sigil_row(grades: Seq<MeasurementGrade>) -> Seq<char> {
    Seq::new(grades.len() / 2, |i: int| spec_sigil(grades[2 * i], grades[2 * i + 1]))
}

/// The finished sparkline: the newest-first glyph row reversed, so the
/// string reads oldest-left, newest-right.
pub open spec fn spec_render(metrics: MetricsView, measurement_type: MeasurementType) -> Seq<
    char,
> {
    spec_sigil_row(spec_metric_grades(metrics, measurement_type)).reverse()
}

/// Relies on `String::push`: appends one character at the end.
#[verifier::external_body]
fn push_char(s: &mut String, c: char)
    ensures
        final(s)@ == old(s)@.push(c),
{
    s.push(c)
}

/// Render one metric's history from a snapshot as a sparkline, oldest
/// sample on the left.
pub fn render(metrics: &Metrics, measurement_type: MeasurementType) -> (r: String)
    ensures
        r@ == spec_render(metrics@, measurement_type),
{
    let grades: Vec<MeasurementGrade> = match measurement_type {
        MeasurementType::Cpu => {
            let mut g: Vec<MeasurementGrade> = Vec::new();
            let mut i: usize = 0;
            while i < metrics.cpu_usage.len()
                invariant
                    i <= metrics.cpu_usage@.len(),
                    g@ == spec_cpu_grades(metrics@.cpu).take(i as int),
                decreases metrics.cpu_usage@.len() - i,
            {
                g.push(CpuUsageGrading.scale(metrics.cpu_usage[i]));
                proof {
                    assert(g@ =~= spec_cpu_grades(metrics@.cpu).take(i + 1));
                }
                i = i + 1;
            }
            proof {
                assert(g@ =~= spec_metric_grades(metrics@, measurement_type));
            }
            g
        },
        MeasurementType::Net => {
            let mut g: Vec<MeasurementGrade> = Vec::new();
            let mut i: usize = 0;
            while i < metrics.net_usage_rate.len()
                invariant
                    i <= metrics.net_usage_rate@.len(),
                    g@ == spec_net_grades(metrics@.net).take(i as int),
                decreases metrics.net_usage_rate@.len() - i,
            {
                g.push(NetUsageRateGrading.scale(metrics.net_usage_rate[i]));
                proof {
                    assert(g@ =~= spec_net_grades(metrics@.net).take(i + 1));
                }
                i = i + 1;
            }
            proof {
                assert(g@ =~= spec_metric_grades(metrics@, measurement_type));
            }
            g
        },
    };
    let ghost row = spec_sigil_row(grades@);
    let pair_count = grades.len() / 2;
    let mut graph_buffer = String::new();
    let mut i: usize = 0;
    while i < pair_count
        invariant
            grades@ == spec_metric_grades(metrics@, measurement_type),
            row == spec_sigil_row(grades@),
            pair_count == grades@.len() / 2,
            pair_count <= usize::MAX / 2,
            i <= pair_count,
            graph_buffer@ == row.reverse().take(i as int),
        decreases pair_count - i,
    {
        let newest_pair_left = 2 * (pair_count - 1 - i);
        let c = sigil(grades[newest_pair_left], grades[newest_pair_left + 1]);
        push_char(&mut graph_buffer, c);
        proof {
            assert(row.reverse()[i as int] == row[row.len() - 1 - i]);
            assert(graph_buffer@ =~= row.reverse().take(i + 1));
        }
        i = i + 1;
    }
    proof {
        assert(graph_buffer@ =~= row.reverse());
    }
    graph_buffer
}

/// The sparkline reads oldest-left, newest-right: counting glyphs from the
/// left, glyph `j` is drawn from the grade pair at positions
/// `2 * (k - 1 - j)` and `2 * (k - 1 - j) + 1` of the newest-first grade
/// sequence, where `k` is the glyph count — so later glyphs come from more
/// recent samples.
pub proof fn lemma_render_direction(
    metrics: MetricsView,
    measurement_type: MeasurementType,
    j: int,
)
    requires
        0 <= j < spec_metric_grades(metrics, measurement_type).len() / 2,
    ensures
        ({
            let grades = spec_metric_grades(metrics, measurement_type);
            let pair_count = grades.len() / 2;
            spec_render(metrics, measurement_type)[j] == spec_sigil(
                grades[2 * (pair_count - 1 - j)],
                grades[2 * (pair_count - 1 - j) + 1],
            )
        }),
{
    let row = spec_sigil_row(spec_metric_grades(metrics, measurement_type));
    assert(row.reverse()[j] == row[row.len() - 1 - j]);
}

/// Rendering is a pure function of the snapshot's sample values: a client
/// that fetches a snapshot equal to the server's and re-renders it produces
/// character-identical output.
pub proof fn lemma_render_round_trip(
    server: MetricsView,
    client: MetricsView,
    measurement_type: MeasurementType,
)
    requires
        client == server,
    ensures
        spec_render(client, measurement_type) == spec_render(server, measurement_type),
{
}

} // verus!

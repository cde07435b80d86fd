//! One floor of a building: its plan, drawing, calibration and
//! measurements.

use vstd::prelude::*;
use crate::models::measurement::Measurement;

verus! {

/// One floor of a survey. Calibration values are real numbers in the
/// application and are carried here as IEEE-754 bit patterns.
#[derive(Debug, Clone)]
pub struct Floor {
    pub name: String,
    /// Path to the imported floor plan image (PNG/JPG) or PDF.
    pub image_path: Option<String>,
    /// Path to the freehand drawing canvas PNG.
    pub drawing_path: Option<String>,
    pub measurements: Vec<Measurement>,
    /// Bit pattern of the calibrated scale, in pixels per meter.
    pub scale_px_per_m_bits: Option<u64>,
    /// Bit patterns of calibration point A (relative coordinates).
    pub calib_point_a_bits: Option<(u64, u64)>,
    /// Bit patterns of calibration point B (relative coordinates).
    pub calib_point_b_bits: Option<(u64, u64)>,
    /// Selected PDF page (0-based), when the image is a PDF.
    pub pdf_page: Option<u32>,
    /// Bit patterns of the grid origin (relative coordinates).
    pub origin_bits: Option<(u64, u64)>,
}

/// The measurements of `ms` whose identifier is not `id`, in their order.
pub open spec fn without_id(ms: Seq<Measurement>, id: Seq<char>) -> Seq<Measurement>
    decreases ms.len(),
{
    if ms.len() == 0 {
        ms
    } else {
        let rest = without_id(ms.drop_last(), id);
        if ms.last().id@ == id {
            rest
        } else {
            rest.push(ms.last())
        }
    }
}

/// Whether some measurement of `ms` has identifier `id`.
pub open spec fn has_id(ms: Seq<Measurement>, id: Seq<char>) -> bool {
    exists|k: int| 0 <= k < ms.len() && (#[trigger] ms[k]).id@ == id
}

/// `a` and `b` agree on everything but their measurements.
pub open spec fn same_but_measurements(a: Floor, b: Floor) -> bool {
    &&& a.name == b.name
    &&& a.image_path == b.image_path
    &&& a.drawing_path == b.drawing_path
    &&& a.scale_px_per_m_bits == b.scale_px_per_m_bits
    &&& a.calib_point_a_bits == b.calib_point_a_bits
    &&& a.calib_point_b_bits == b.calib_point_b_bits
    &&& a.pdf_page == b.pdf_page
    &&& a.origin_bits == b.origin_bits
}

/// `f` is a floor named `name` with nothing on it yet: no image, drawing,
/// calibration, PDF page, origin or measurements.
pub open spec fn is_empty_floor(f: Floor, name: Seq<char>) -> bool {
    &&& f.name@ == name
    &&& f.image_path is None
    &&& f.drawing_path is None
    &&& f.measurements@.len() == 0
    &&& f.scale_px_per_m_bits is None
    &&& f.calib_point_a_bits is None
    &&& f.calib_point_b_bits is None
    &&& f.pdf_page is None
    &&& f.origin_bits is None
}

/// No measurement left by `without_id(ms, id)` has identifier `id`, and
/// it is no longer than `ms`.
pub proof fn lemma_without_id_drops_id(ms: Seq<Measurement>, id: Seq<char>)
    ensures
        !has_id(without_id(ms, id), id),
        without_id(ms, id).len() <= ms.len(),
    decreases ms.len(),
{
    if ms.len() > 0 {
        lemma_without_id_drops_id(ms.drop_last(), id);
        let rest = without_id(ms.drop_last(), id);
        if ms.last().id@ != id {
            assert forall|k: int| 0 <= k < rest.push(ms.last()).len() implies (#[trigger] rest.push(
                ms.last(),
            )[k]).id@ != id by {
                if k < rest.len() {
                    assert(rest.push(ms.last())[k] == rest[k]);
                }
            }
        }
    }
}

/// Removing an identifier that no measurement has changes nothing.
pub proof fn lemma_without_absent_id(ms: Seq<Measurement>, id: Seq<char>)
    requires
        !has_id(ms, id),
    ensures
        without_id(ms, id) == ms,
    decreases ms.len(),
{
    if ms.len() > 0 {
        let init = ms.drop_last();
        assert(!has_id(init, id)) by {
            if has_id(init, id) {
                let k = choose|k: int| 0 <= k < init.len() && (#[trigger] init[k]).id@ == id;
                assert(ms[k] == init[k]);
            }
        }
        lemma_without_absent_id(init, id);
        assert(ms.last() == ms[ms.len() - 1]);
        assert(init.push(ms.last()) =~= ms);
    }
}

/// Law: removing an identifier twice is removing it once.
pub proof fn lemma_remove_measurement_idempotent(ms: Seq<Measurement>, id: Seq<char>)
    ensures
        without_id(without_id(ms, id), id) == without_id(ms, id),
{
    lemma_without_id_drops_id(ms, id);
    lemma_without_absent_id(without_id(ms, id), id);
}

/// Law: adding a measurement whose identifier is new, then removing that
/// identifier, gives back the measurements from before.
pub proof fn lemma_add_then_remove_measurement(ms: Seq<Measurement>, m: Measurement)
    requires
        !has_id(ms, m.id@),
    ensures
        without_id(ms.push(m), m.id@) == ms,
{
    assert(ms.push(m).drop_last() =~= ms);
    lemma_without_absent_id(ms, m.id@);
}

/// Law: the measurements kept are exactly those of `ms` with another
/// identifier; every kept one comes from `ms`.
pub proof fn lemma_without_id_members(ms: Seq<Measurement>, id: Seq<char>, m: Measurement)
    ensures
        without_id(ms, id).contains(m) <==> (ms.contains(m) && m.id@ != id),
    decreases ms.len(),
{
    if ms.len() > 0 {
        let init = ms.drop_last();
        lemma_without_id_members(init, id, m);
        let rest = without_id(init, id);
        assert(ms =~= init.push(ms.last()));
        assert(ms.contains(m) <==> (init.contains(m) || m == ms.last())) by {
            if ms.contains(m) {
                let k = choose|k: int| 0 <= k < ms.len() && ms[k] == m;
                if k < init.len() {
                    assert(init[k] == m);
                }
            }
            if init.contains(m) {
                let k = choose|k: int| 0 <= k < init.len() && init[k] == m;
                assert(ms[k] == m);
            }
            if m == ms.last() {
                assert(ms[ms.len() - 1] == m);
            }
        }
        if ms.last().id@ != id {
            assert(rest.push(ms.last()).contains(m) <==> (rest.contains(m) || m == ms.last())) by {
                if rest.push(ms.last()).contains(m) {
                    let k = choose|k: int| 0 <= k < rest.push(ms.last()).len() && rest.push(
                        ms.last(),
                    )[k] == m;
                    if k < rest.len() {
                        assert(rest[k] == m);
                    }
                }
                if rest.contains(m) {
                    let k = choose|k: int| 0 <= k < rest.len() && rest[k] == m;
                    assert(rest.push(ms.last())[k] == m);
                }
                if m == ms.last() {
                    assert(rest.push(ms.last())[rest.len() as int] == m);
                }
            }
        }
    }
}

impl Floor {
    /// An empty floor: no image, drawing, calibration or measurements.
    pub fn new(name: &str) -> (f: Self)
        ensures
            is_empty_floor(f, name@),
    {
        Floor {
            name: name.to_owned(),
            image_path: None,
            drawing_path: None,
            measurements: Vec::new(),
            scale_px_per_m_bits: None,
            calib_point_a_bits: None,
            calib_point_b_bits: None,
            pdf_page: None,
            origin_bits: None,
        }
    }

    /// Appends a measurement.
    pub fn add_measurement(&mut self, measurement: Measurement)
        ensures
            final(self).measurements@ == old(self).measurements@.push(measurement),
            same_but_measurements(*final(self), *old(self)),
    {
        self.measurements.push(measurement);
    }

    /// Removes every measurement whose identifier is `id`, keeping the
    /// others in their order.
    pub fn remove_measurement(&mut self, id: &str)
        ensures
            final(self).measurements@ == without_id(old(self).measurements@, id@),
            same_but_measurements(*final(self), *old(self)),
    {
        let target = id.to_owned();
        let ghost orig = self.measurements@;
        assert(orig.len() == self.measurements.len());
        let mut i: usize = 0;
        let mut j: usize = 0;
        while i < self.measurements.len()
            invariant
                j <= orig.len(),
                i == without_id(orig.take(j as int), id@).len(),
                self.measurements@ == without_id(orig.take(j as int), id@) + orig.skip(j as int),
                target@ == id@,
                same_but_measurements(*self, *old(self)),
                orig == old(self).measurements@,
                orig.len() <= usize::MAX,
            decreases self.measurements@.len() - i,
        {
            let ghost kept = without_id(orig.take(j as int), id@);
            assert(j < orig.len());
            assert(self.measurements@[i as int] == orig[j as int]);
            assert(orig.take(j + 1).drop_last() =~= orig.take(j as int));
            assert(orig.take(j + 1).last() == orig[j as int]);
            if self.measurements[i].id == target {
                self.measurements.remove(i);
                assert(self.measurements@ =~= kept + orig.skip(j + 1));
            } else {
                i = i + 1;
                assert(self.measurements@ =~= kept.push(orig[j as int]) + orig.skip(j + 1));
            }
            j = j + 1;
        }
        assert(j == orig.len()) by {
            if j < orig.len() {
                assert(self.measurements@.len() == i + orig.len() - j);
            }
        }
        assert(orig.take(j as int) =~= orig);
        assert(self.measurements@ =~= without_id(orig, id@));
    }
}

/// Whether a file name ends in `.pdf`, with the letters in either case.
pub open spec fn is_pdf_name(s: Seq<char>) -> bool {
    &&& s.len() >= 4
    &&& s[s.len() - 4] == '.'
    &&& (s[s.len() - 3] == 'p' || s[s.len() - 3] == 'P')
    &&& (s[s.len() - 2] == 'd' || s[s.len() - 2] == 'D')
    &&& (s[s.len() - 1] == 'f' || s[s.len() - 1] == 'F')
}

/// Whether a floor plan file is a PDF (judged by its name), in which case
/// the page chosen in `pdf_page` is rendered.
pub fn is_pdf_path(path: &str) -> (r: bool)
    ensures
        r == is_pdf_name(path@),
{
    let n = path.unicode_len();
    if n < 4 {
        return false;
    }
    let dot = path.get_char(n - 4);
    let p = path.get_char(n - 3);
    let d = path.get_char(n - 2);
    let f = path.get_char(n - 1);
    dot == '.' && (p == 'p' || p == 'P') && (d == 'd' || d == 'D') && (f == 'f' || f == 'F')
}

} // verus!

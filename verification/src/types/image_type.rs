use crate::text::{chars_of, equals, is_numeric, numeric, opt_view, opt_views, views};
use vstd::prelude::*;

verus! {

/// The image type field of a mammogram, decomposed into its parts.
#[derive(Debug, PartialEq, Eq)]
pub struct ImageType {
    /// Pixel derivation, such as "ORIGINAL" or "DERIVED".
    pub pixels: String,
    /// Role in the examination, such as "PRIMARY" or "SECONDARY".
    pub exam: String,
    /// Free-text qualifier.
    pub flavor: Option<String>,
    /// The values after the first three.
    pub extras: Option<Vec<String>>,
}

/// What an `ImageType` holds, as sequences of characters.
pub ghost struct ImageTypeView {
    pub pixels: Seq<char>,
    pub exam: Seq<char>,
    pub flavor: Option<Seq<char>>,
    pub extras: Option<Seq<Seq<char>>>,
}

impl View for ImageType {
    type V = ImageTypeView;

    open spec fn view(&self) -> ImageTypeView {
        ImageTypeView {
            pixels: self.pixels@,
            exam: self.exam@,
            flavor: opt_view(self.flavor),
            extras: opt_views(self.extras),
        }
    }
}

/// Whether every character of `s` is numeric. This holds of the empty
/// sequence.
pub open spec fn all_numeric(s: Seq<char>) -> bool {
    forall|i: int| 0 <= i < s.len() ==> numeric(#[trigger] s[i])
}

/// Whether an extra value is shown in the short form: it is not empty and
/// not made of numeric characters only.
pub open spec fn extra_shown(e: Seq<char>) -> bool {
    e.len() > 0 && !all_numeric(e)
}

/// The extra values that the short form shows, in order.
pub open spec fn shown_extras(extras: Seq<Seq<char>>) -> Seq<Seq<char>>
    decreases extras.len(),
{
    if extras.len() == 0 {
        Seq::empty()
    } else if extra_shown(extras.last()) {
        shown_extras(extras.drop_last()).push(extras.last())
    } else {
        shown_extras(extras.drop_last())
    }
}

/// The parts joined with `sep` between each two neighbours.
pub open spec fn joined(parts: Seq<Seq<char>>, sep: Seq<char>) -> Seq<char>
    decreases parts.len(),
{
    if parts.len() == 0 {
        Seq::empty()
    } else if parts.len() == 1 {
        parts[0]
    } else {
        joined(parts.drop_last(), sep) + sep + parts.last()
    }
}

impl ImageTypeView {
    /// Whether both the pixel derivation and the examination role are
    /// present.
    pub open spec fn valid(self) -> bool {
        self.pixels.len() > 0 && self.exam.len() > 0
    }

    /// Whether one of the parts is exactly `val`.
    pub open spec fn has_value(self, val: Seq<char>) -> bool {
        ||| self.pixels == val
        ||| self.exam == val
        ||| self.flavor == Some(val)
        ||| (self.extras is Some && self.extras->0.contains(val))
    }

    /// The parts of the short form: pixel derivation, examination role, the
    /// flavor where there is one (two apostrophes for an empty one), and
    /// the extras that are shown.
    pub open spec fn repr_parts(self) -> Seq<Seq<char>> {
        let head = seq![self.pixels, self.exam];
        let with_flavor = match self.flavor {
            Some(f) => head.push(
                if f.len() == 0 {
                    "''"@
                } else {
                    f
                },
            ),
            None => head,
        };
        match self.extras {
            Some(e) => with_flavor + shown_extras(e),
            None => with_flavor,
        }
    }

    /// The short form: the parts joined with a vertical bar.
    pub open spec fn repr(self) -> Seq<char> {
        joined(self.repr_parts(), "|"@)
    }
}

/// Whether every character of `s` is numeric.
fn is_all_numeric(s: &str) -> (r: bool)
    ensures
        r == all_numeric(s@),
{
    let c = chars_of(s);
    let mut k: usize = 0;
    while k < c.len()
        invariant
            c@ == s@,
            k <= c.len(),
            forall|i: int| 0 <= i < k ==> numeric(#[trigger] c@[i]),
        decreases c.len() - k,
    {
        if !is_numeric(c[k]) {
            return false;
        }
        k += 1;
    }
    true
}

/// A copy of a list of strings.
pub(crate) fn clone_strings(v: &Vec<String>) -> (r: Vec<String>)
    ensures
        views(r@) == views(v@),
{
    let mut out: Vec<String> = Vec::new();
    let mut k: usize = 0;
    while k < v.len()
        invariant
            k <= v.len(),
            out.len() == k,
            forall|i: int| 0 <= i < k ==> out@[i]@ == v@[i]@,
        decreases v.len() - k,
    {
        out.push(v[k].clone());
        k += 1;
    }
    assert(views(out@) =~= views(v@));
    out
}

/// A copy of an optional string.
pub(crate) fn clone_opt_string(o: &Option<String>) -> (r: Option<String>)
    ensures
        opt_view(r) == opt_view(*o),
{
    match o {
        Some(s) => Some(s.clone()),
        None => None,
    }
}

impl Clone for ImageType {
    fn clone(&self) -> (r: Self)
        ensures
            r@ == self@,
    {
        ImageType {
            pixels: self.pixels.clone(),
            exam: self.exam.clone(),
            flavor: clone_opt_string(&self.flavor),
            extras: match &self.extras {
                Some(e) => Some(clone_strings(e)),
                None => None,
            },
        }
    }
}

impl ImageType {
    pub fn new(
        pixels: String,
        exam: String,
        flavor: Option<String>,
        extras: Option<Vec<String>>,
    ) -> (r: Self)
        ensures
            r.pixels == pixels,
            r.exam == exam,
            r.flavor == flavor,
            r.extras == extras,
    {
        Self { pixels, exam, flavor, extras }
    }

    /// The short form of the image type, such as `DERIVED|PRIMARY|TOMO`.
    pub fn simple_repr(&self) -> (r: String)
        ensures
            r@ == self@.repr(),
    {
        let ghost sep = "|"@;
        let mut out = self.pixels.clone();
        out.append("|");
        out.append(self.exam.as_str());
        let ghost mut parts = seq![self.pixels@, self.exam@];
        proof {
            assert(parts.drop_last() =~= seq![self.pixels@]);
            assert(joined(seq![self.pixels@], sep) == self.pixels@);
            assert(out@ == joined(parts, sep));
        }
        if let Some(flavor) = &self.flavor {
            out.append("|");
            if flavor.as_str().is_empty() {
                out.append("''");
                proof {
                    let next = parts.push("''"@);
                    assert(next.drop_last() =~= parts);
                    assert(out@ == joined(next, sep));
                    parts = next;
                }
            } else {
                out.append(flavor.as_str());
                proof {
                    let next = parts.push(flavor@);
                    assert(next.drop_last() =~= parts);
                    assert(out@ == joined(next, sep));
                    parts = next;
                }
            }
        }
        let ghost base = parts;
        assert(out@ == joined(base, sep));
        assert(self@.extras is None ==> self@.repr_parts() == base);
        assert(self@.extras is Some ==> self@.repr_parts() == base + shown_extras(self@.extras->0));
        if let Some(extras) = &self.extras {
            let mut k: usize = 0;
            proof {
                assert(views(extras@).take(0) =~= Seq::<Seq<char>>::empty());
                assert(base + shown_extras(views(extras@).take(0)) =~= base);
            }
            while k < extras.len()
                invariant
                    k <= extras.len(),
                    base.len() >= 2,
                    sep == "|"@,
                    out@ == joined(base + shown_extras(views(extras@).take(k as int)), sep),
                decreases extras.len() - k,
            {
                let extra = &extras[k];
                let ghost seen = views(extras@).take(k as int);
                proof {
                    let now = views(extras@).take(k + 1);
                    assert(now.drop_last() =~= seen);
                    assert(now.last() == extra@);
                }
                if !extra.as_str().is_empty() && !is_all_numeric(extra.as_str()) {
                    out.append("|");
                    out.append(extra.as_str());
                    proof {
                        let next = base + shown_extras(seen).push(extra@);
                        assert(next.drop_last() =~= base + shown_extras(seen));
                        assert(next.last() == extra@);
                    }
                }
                k += 1;
            }
            proof {
                assert(views(extras@).take(k as int) =~= views(extras@));
            }
        }
        out
    }

    /// Whether one of the parts is exactly `val`.
    pub fn contains(&self, val: &str) -> (r: bool)
        ensures
            r == self@.has_value(val@),
    {
        if equals(self.pixels.as_str(), val) || equals(self.exam.as_str(), val) {
            return true;
        }
        if let Some(flavor) = &self.flavor {
            if equals(flavor.as_str(), val) {
                return true;
            }
        }
        if let Some(extras) = &self.extras {
            let mut k: usize = 0;
            while k < extras.len()
                invariant
                    k <= extras.len(),
                    self@.extras == Some(views(extras@)),
                    forall|i: int| 0 <= i < k ==> extras@[i]@ != val@,
                decreases extras.len() - k,
            {
                if equals(extras[k].as_str(), val) {
                    assert(views(extras@)[k as int] == val@);
                    assert(views(extras@).contains(val@));
                    return true;
                }
                k += 1;
            }
            assert(!views(extras@).contains(val@));
        }
        false
    }

    /// Whether both the pixel derivation and the examination role are
    /// present.
    pub fn is_valid(&self) -> (r: bool)
        ensures
            r == self@.valid(),
    {
        !self.pixels.as_str().is_empty() && !self.exam.as_str().is_empty()
    }

    /// The short form of the image type.
    pub fn to_string(&self) -> (r: String)
        ensures
            r@ == self@.repr(),
    {
        self.simple_repr()
    }
}

} // verus!

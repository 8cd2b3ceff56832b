use super::enums::{Laterality, ViewPosition};
use vstd::prelude::*;

verus! {

/// A mammogram view: a side of the breast together with a projection, such
/// as "left MLO".
#[derive(Debug, Clone, Copy, PartialEq, Eq, Hash, Structural)]
pub struct MammogramView {
    pub laterality: Laterality,
    pub view: ViewPosition,
}

/// The four views of a complete bilateral study, in the order in which they
/// are reported: left MLO, right MLO, left CC, right CC.
pub open spec fn standard_views() -> Seq<MammogramView> {
    seq![
        MammogramView { laterality: Laterality::Left, view: ViewPosition::Mlo },
        MammogramView { laterality: Laterality::Right, view: ViewPosition::Mlo },
        MammogramView { laterality: Laterality::Left, view: ViewPosition::Cc },
        MammogramView { laterality: Laterality::Right, view: ViewPosition::Cc },
    ]
}

/// The four views of a complete bilateral study, in reporting order.
pub fn standard_mammo_views() -> (r: [MammogramView; 4])
    ensures
        r@ == standard_views(),
{
    let r = [
        MammogramView { laterality: Laterality::Left, view: ViewPosition::Mlo },
        MammogramView { laterality: Laterality::Right, view: ViewPosition::Mlo },
        MammogramView { laterality: Laterality::Left, view: ViewPosition::Cc },
        MammogramView { laterality: Laterality::Right, view: ViewPosition::Cc },
    ];
    assert(r@ =~= standard_views());
    r
}

impl MammogramView {
    /// Whether the view is one of the four of a complete bilateral study: a
    /// left or right side with a CC or MLO projection.
    pub open spec fn canonical(self) -> bool {
        self.laterality.unilateral() && self.view.standard()
    }

    /// The display form of the view: the name of the side, a space, and the
    /// abbreviation of the projection.
    pub open spec fn name(self) -> Seq<char> {
        self.laterality.name() + " "@ + self.view.name()
    }

    pub fn new(laterality: Laterality, view: ViewPosition) -> (r: Self)
        ensures
            r.laterality == laterality,
            r.view == view,
    {
        Self { laterality, view }
    }

    /// Whether the projection is CC or MLO.
    pub fn is_standard_mammo_view(&self) -> (r: bool)
        ensures
            r == self.view.standard(),
    {
        self.view.is_standard_view()
    }

    /// Whether the projection belongs to the oblique and lateral group.
    pub fn is_mlo_like(&self) -> (r: bool)
        ensures
            r == self.view.mlo_like(),
    {
        self.view.is_mlo_like()
    }

    /// Whether the projection belongs to the cranio-caudal group.
    pub fn is_cc_like(&self) -> (r: bool)
        ensures
            r == self.view.cc_like(),
    {
        self.view.is_cc_like()
    }

    /// The display form of the view, such as "left mlo".
    pub fn to_string(&self) -> (r: String)
        ensures
            r@ == self.name(),
    {
        let mut out = self.laterality.simple_name().to_owned();
        out.append(" ");
        out.append(self.view.simple_name());
        out
    }

    /// The standard views are exactly the canonical ones.
    pub proof fn lemma_standard_views_are_canonical(v: MammogramView)
        ensures
            standard_views().len() == 4,
            standard_views().contains(v) <==> v.canonical(),
            standard_views().no_duplicates(),
    {
        let s = standard_views();
        if v.canonical() {
            if v.laterality == Laterality::Left && v.view == ViewPosition::Mlo {
                assert(s[0] == v);
            } else if v.laterality == Laterality::Right && v.view == ViewPosition::Mlo {
                assert(s[1] == v);
            } else if v.laterality == Laterality::Left {
                assert(s[2] == v);
            } else {
                assert(s[3] == v);
            }
        }
    }
}

} // verus!

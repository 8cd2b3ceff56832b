use super::record::{
    lemma_preference_is_asymmetric, lemma_preference_is_transitive_within_a_study,
    MammogramRecord, RecordView,
};
use crate::text::{equals, to_uppercase, uppercase};
use crate::types::{
    FilterConfig, Laterality, MammogramType, MammogramView, PreferenceOrder, ViewPosition,
};
use vstd::prelude::*;

verus! {

/// The views of a run of records.
pub open spec fn record_views(records: Seq<MammogramRecord>) -> Seq<RecordView> {
    records.map_values(|r: MammogramRecord| r@)
}

/// The view of an optional record.
pub open spec fn opt_record(o: Option<MammogramRecord>) -> Option<RecordView> {
    match o {
        Some(r) => Some(r@),
        None => None,
    }
}

/// Whether a record is a candidate for a view: its side is that of the
/// view, and its projection belongs to the group of the view's projection.
pub open spec fn is_candidate(record: RecordView, target: MammogramView) -> bool {
    &&& record.metadata.laterality == target.laterality
    &&& if target.view.mlo_like() {
        record.metadata.view_position.mlo_like()
    } else if target.view.cc_like() {
        record.metadata.view_position.cc_like()
    } else {
        false
    }
}

/// The most preferred candidate for a view among the records, taken in
/// order: the first candidate stands until a later candidate is preferred
/// to it, which then stands in its place. `None` where no record is a
/// candidate.
pub open spec fn best_for(
    records: Seq<RecordView>,
    target: MammogramView,
    order: PreferenceOrder,
) -> Option<RecordView>
    decreases records.len(),
{
    if records.len() == 0 {
        None
    } else {
        let before = best_for(records.drop_last(), target, order);
        let last = records.last();
        if !is_candidate(last, target) {
            before
        } else {
            match before {
                None => Some(last),
                Some(b) => if last.preferred_to(b, order) {
                    Some(last)
                } else {
                    Some(b)
                },
            }
        }
    }
}

/// The selection among the records: for each of the four standard views,
/// the most preferred candidate.
pub open spec fn selection_of(records: Seq<RecordView>, order: PreferenceOrder) -> Map<
    MammogramView,
    Option<RecordView>,
> {
    Map::new(|v: MammogramView| v.canonical(), |v: MammogramView| best_for(records, v, order))
}

/// Whether a modality code is that of mammography, in any case.
pub open spec fn is_mg(modality: Option<Seq<char>>) -> bool {
    modality is Some && uppercase(modality->0) == "MG"@
}

/// Whether a configuration lets a record through, where `modality_is_mg`
/// says whether the record's modality is that of mammography. A record
/// passes when it passes every rule that is enabled.
pub open spec fn admits_given(config: FilterConfig, record: RecordView, modality_is_mg: bool) -> bool {
    &&& (config.allowed_types matches Some(allowed) ==> allowed@.contains(
        record.metadata.mammogram_type,
    ))
    &&& !(config.exclude_implants && record.metadata.has_implant)
    &&& !(config.exclude_non_standard_views && !record.standard())
    &&& !(config.exclude_for_processing && record.metadata.is_for_processing)
    &&& !(config.exclude_secondary_capture && record.metadata.is_secondary_capture)
    &&& !(config.exclude_non_mg_modality && !modality_is_mg)
}

/// Whether a configuration lets a record through. A record without a
/// modality does not pass the modality rule.
pub open spec fn admits(config: FilterConfig, record: RecordView) -> bool {
    admits_given(config, record, is_mg(record.metadata.modality))
}

/// The records that satisfy `keep`, in their order.
pub open spec fn kept_by(records: Seq<RecordView>, keep: spec_fn(RecordView) -> bool) -> Seq<
    RecordView,
>
    decreases records.len(),
{
    if records.len() == 0 {
        Seq::empty()
    } else if keep(records.last()) {
        kept_by(records.drop_last(), keep).push(records.last())
    } else {
        kept_by(records.drop_last(), keep)
    }
}

/// The records that a configuration lets through, in their order.
pub open spec fn filtered(records: Seq<RecordView>, config: FilterConfig) -> Seq<RecordView> {
    kept_by(records, |r: RecordView| admits(config, r))
}

/// Whether a type belongs to the 2D family: FFDM, synthetic 2D and film.
pub open spec fn in_2d_family(t: MammogramType) -> bool {
    t == MammogramType::Ffdm || t == MammogramType::Synth || t == MammogramType::Sfm
}

/// Whether a type belongs to the 3D family: tomosynthesis.
pub open spec fn in_3d_family(t: MammogramType) -> bool {
    t == MammogramType::Tomo
}

/// Whether a type belongs to the given family, 2D or 3D. `Unknown` belongs
/// to neither.
pub open spec fn in_family(t: MammogramType, two_d: bool) -> bool {
    if two_d {
        in_2d_family(t)
    } else {
        in_3d_family(t)
    }
}

/// The records whose type belongs to the given family, in their order.
pub open spec fn family_pool(records: Seq<RecordView>, two_d: bool) -> Seq<RecordView> {
    kept_by(records, |r: RecordView| in_family(r.metadata.mammogram_type, two_d))
}

/// Whether every populated view of a selection has a type of the given
/// family.
pub open spec fn within_family(
    selection: Map<MammogramView, Option<RecordView>>,
    two_d: bool,
) -> bool {
    forall|v: MammogramView|
        v.canonical() ==> (#[trigger] selection[v] matches Some(r) ==> in_family(
            r.metadata.mammogram_type,
            two_d,
        ))
}

/// Whether a selection draws from one family only. This holds of a
/// selection with no populated view.
pub open spec fn single_family(selection: Map<MammogramView, Option<RecordView>>) -> bool {
    within_family(selection, true) || within_family(selection, false)
}

/// The left MLO view.
pub open spec fn left_mlo() -> MammogramView {
    MammogramView { laterality: Laterality::Left, view: ViewPosition::Mlo }
}

/// The right MLO view.
pub open spec fn right_mlo() -> MammogramView {
    MammogramView { laterality: Laterality::Right, view: ViewPosition::Mlo }
}

/// The left CC view.
pub open spec fn left_cc() -> MammogramView {
    MammogramView { laterality: Laterality::Left, view: ViewPosition::Cc }
}

/// The right CC view.
pub open spec fn right_cc() -> MammogramView {
    MammogramView { laterality: Laterality::Right, view: ViewPosition::Cc }
}

/// One for a populated view, zero for an empty one.
pub open spec fn filled(slot: Option<RecordView>) -> nat {
    if slot is Some {
        1
    } else {
        0
    }
}

/// The rank of the type in a populated view; zero for an empty one.
pub open spec fn slot_rank(slot: Option<RecordView>, order: PreferenceOrder) -> int {
    match slot {
        Some(r) => order.rank(r.metadata.mammogram_type),
        None => 0,
    }
}

/// The number of populated views of a selection.
pub open spec fn coverage(selection: Map<MammogramView, Option<RecordView>>) -> nat {
    filled(selection[left_mlo()]) + filled(selection[right_mlo()]) + filled(selection[left_cc()])
        + filled(selection[right_cc()])
}

/// The sum, over the populated views of a selection, of the rank of the
/// type under `order`. A lower score is better.
pub open spec fn score(
    selection: Map<MammogramView, Option<RecordView>>,
    order: PreferenceOrder,
) -> int {
    slot_rank(selection[left_mlo()], order) + slot_rank(selection[right_mlo()], order)
        + slot_rank(selection[left_cc()], order) + slot_rank(selection[right_cc()], order)
}

/// Whether the 3D selection is chosen over the 2D selection: it is when it
/// covers strictly more views, or covers as many with a strictly lower
/// score. On a tie in both the 2D selection stands.
pub open spec fn prefers_3d(
    two_d: Map<MammogramView, Option<RecordView>>,
    three_d: Map<MammogramView, Option<RecordView>>,
    order: PreferenceOrder,
) -> bool {
    coverage(three_d) > coverage(two_d) || (coverage(three_d) == coverage(two_d) && score(
        three_d,
        order,
    ) < score(two_d, order))
}

/// The selection among the records in which all views come from one
/// family. Where the plain selection draws from one family, it stands.
/// Otherwise the records of the 2D family and those of the 3D family are
/// selected from separately, and the better of the two selections is
/// taken.
pub open spec fn common_modality_selection(
    records: Seq<RecordView>,
    order: PreferenceOrder,
) -> Map<MammogramView, Option<RecordView>> {
    let plain = selection_of(records, order);
    if single_family(plain) {
        plain
    } else {
        let two_d = selection_of(family_pool(records, true), order);
        let three_d = selection_of(family_pool(records, false), order);
        if prefers_3d(two_d, three_d, order) {
            three_d
        } else {
            two_d
        }
    }
}

/// The selection among the records that a configuration lets through, with
/// all views from one family where the configuration requires that.
pub open spec fn filtered_selection(
    records: Seq<RecordView>,
    config: FilterConfig,
    order: PreferenceOrder,
) -> Map<MammogramView, Option<RecordView>> {
    if config.require_common_modality {
        common_modality_selection(filtered(records, config), order)
    } else {
        selection_of(filtered(records, config), order)
    }
}

/// The outcome of a selection: for each of the four standard views, the
/// record that was selected, if any.
#[derive(Debug)]
pub struct PreferredViews {
    pub left_mlo: Option<MammogramRecord>,
    pub right_mlo: Option<MammogramRecord>,
    pub left_cc: Option<MammogramRecord>,
    pub right_cc: Option<MammogramRecord>,
}

impl View for PreferredViews {
    type V = Map<MammogramView, Option<RecordView>>;

    open spec fn view(&self) -> Map<MammogramView, Option<RecordView>> {
        Map::new(
            |v: MammogramView| v.canonical(),
            |v: MammogramView|
                if v.view == ViewPosition::Mlo {
                    if v.laterality == Laterality::Left {
                        opt_record(self.left_mlo)
                    } else {
                        opt_record(self.right_mlo)
                    }
                } else {
                    if v.laterality == Laterality::Left {
                        opt_record(self.left_cc)
                    } else {
                        opt_record(self.right_cc)
                    }
                },
        )
    }
}

impl PreferredViews {
    /// The number of views of the selection, which is four.
    pub fn len(&self) -> (r: usize)
        ensures
            r == 4,
    {
        4
    }

    /// Whether `view` is one of the four views of the selection.
    pub fn contains_key(&self, view: &MammogramView) -> (r: bool)
        ensures
            r == self@.contains_key(*view),
    {
        view.laterality.is_unilateral() && view.view.is_standard_view()
    }

    /// The outcome for `view`: `None` where `view` is not one of the four
    /// views, else the record selected for it, if any.
    pub fn get(&self, view: &MammogramView) -> (r: Option<&Option<MammogramRecord>>)
        ensures
            r is Some <==> self@.contains_key(*view),
            r matches Some(slot) ==> opt_record(*slot) == self@[*view],
    {
        if !self.contains_key(view) {
            return None;
        }
        if matches!(view.view, ViewPosition::Mlo) {
            if matches!(view.laterality, Laterality::Left) {
                Some(&self.left_mlo)
            } else {
                Some(&self.right_mlo)
            }
        } else {
            if matches!(view.laterality, Laterality::Left) {
                Some(&self.left_cc)
            } else {
                Some(&self.right_cc)
            }
        }
    }

    /// The number of views for which a record was selected.
    pub fn coverage(&self) -> (r: usize)
        ensures
            r == coverage(self@),
            r <= 4,
    {
        let mut n: usize = 0;
        if self.left_mlo.is_some() {
            n += 1;
        }
        if self.right_mlo.is_some() {
            n += 1;
        }
        if self.left_cc.is_some() {
            n += 1;
        }
        if self.right_cc.is_some() {
            n += 1;
        }
        n
    }

    /// The sum, over the populated views, of the rank of the type under
    /// `order`.
    pub fn score(&self, order: PreferenceOrder) -> (r: i32)
        ensures
            r == score(self@, order),
            0 <= r <= 20,
    {
        Self::rank_of_slot(&self.left_mlo, order) + Self::rank_of_slot(&self.right_mlo, order)
            + Self::rank_of_slot(&self.left_cc, order) + Self::rank_of_slot(
            &self.right_cc,
            order,
        )
    }

    fn rank_of_slot(slot: &Option<MammogramRecord>, order: PreferenceOrder) -> (r: i32)
        ensures
            r == slot_rank(opt_record(*slot), order),
            0 <= r <= 5,
    {
        match slot {
            Some(record) => order.preference_value(&record.metadata.mammogram_type),
            None => 0,
        }
    }

    fn slot_in_family(slot: &Option<MammogramRecord>, two_d: bool) -> (r: bool)
        ensures
            r == (opt_record(*slot) matches Some(rec) ==> in_family(
                rec.metadata.mammogram_type,
                two_d,
            )),
    {
        match slot {
            Some(record) => type_in_family(&record.metadata.mammogram_type, two_d),
            None => true,
        }
    }

    /// Whether every populated view has a type of the given family.
    pub fn is_within_family(&self, two_d: bool) -> (r: bool)
        ensures
            r == within_family(self@, two_d),
    {
        let r = Self::slot_in_family(&self.left_mlo, two_d) && Self::slot_in_family(
            &self.right_mlo,
            two_d,
        ) && Self::slot_in_family(&self.left_cc, two_d) && Self::slot_in_family(
            &self.right_cc,
            two_d,
        );
        proof {
            if !r {
                assert(left_mlo().canonical() && right_mlo().canonical() && left_cc().canonical()
                    && right_cc().canonical());
                assert(self@[left_mlo()] == opt_record(self.left_mlo));
                assert(self@[right_mlo()] == opt_record(self.right_mlo));
                assert(self@[left_cc()] == opt_record(self.left_cc));
                assert(self@[right_cc()] == opt_record(self.right_cc));
            }
        }
        r
    }
}

/// Whether a type belongs to the given family, 2D or 3D.
pub fn type_in_family(t: &MammogramType, two_d: bool) -> (r: bool)
    ensures
        r == in_family(*t, two_d),
{
    if two_d {
        matches!(t, MammogramType::Ffdm | MammogramType::Synth | MammogramType::Sfm)
    } else {
        matches!(t, MammogramType::Tomo)
    }
}

/// Whether a record is a candidate for a view.
pub fn is_candidate_for_view(record: &MammogramRecord, target: &MammogramView) -> (r: bool)
    ensures
        r == is_candidate(record@, *target),
{
    let candidate_view = record.metadata.mammogram_view();
    if candidate_view.laterality != target.laterality {
        return false;
    }
    if target.view.is_mlo_like() {
        candidate_view.is_mlo_like()
    } else if target.view.is_cc_like() {
        candidate_view.is_cc_like()
    } else {
        false
    }
}

/// Whether a configuration lets a record through, where the caller says
/// whether the record's modality is that of mammography.
pub fn passes_rules(record: &MammogramRecord, config: &FilterConfig, modality_is_mg: bool) -> (r:
    bool)
    ensures
        r == admits_given(*config, record@, modality_is_mg),
{
    if let Some(allowed) = &config.allowed_types {
        if !allowed.contains(&record.metadata.mammogram_type) {
            return false;
        }
    }
    if config.exclude_implants && record.metadata.has_implant {
        return false;
    }
    if config.exclude_non_standard_views && !record.metadata.is_standard_view() {
        return false;
    }
    if config.exclude_for_processing && record.metadata.is_for_processing {
        return false;
    }
    if config.exclude_secondary_capture && record.metadata.is_secondary_capture {
        return false;
    }
    if config.exclude_non_mg_modality && !modality_is_mg {
        return false;
    }
    true
}

/// Whether a configuration lets a record through.
pub fn passes_filters(record: &MammogramRecord, config: &FilterConfig) -> (r: bool)
    ensures
        r == admits(*config, record@),
{
    let modality_is_mg = match &record.metadata.modality {
        Some(m) => {
            let upper = to_uppercase(m.as_str());
            equals(upper.as_str(), "MG")
        },
        None => false,
    };
    passes_rules(record, config, modality_is_mg)
}

/// The records that a configuration lets through, in their order.
pub fn apply_filters(records: &[MammogramRecord], config: &FilterConfig) -> (r: Vec<
    MammogramRecord,
>)
    ensures
        record_views(r@) == filtered(record_views(records@), *config),
{
    let ghost keep = |r: RecordView| admits(*config, r);
    let mut out: Vec<MammogramRecord> = Vec::new();
    let mut k: usize = 0;
    assert(record_views(records@).take(0) =~= Seq::<RecordView>::empty());
    assert(record_views(out@) =~= Seq::<RecordView>::empty());
    while k < records.len()
        invariant
            k <= records.len(),
            keep == (|r: RecordView| admits(*config, r)),
            record_views(out@) == kept_by(record_views(records@).take(k as int), keep),
        decreases records.len() - k,
    {
        let ghost before = record_views(out@);
        assert(record_views(records@).take(k + 1).drop_last() =~= record_views(records@).take(
            k as int,
        ));
        assert(record_views(records@).take(k + 1).last() == records@[k as int]@);
        if passes_filters(&records[k], config) {
            out.push(records[k].clone());
            assert(record_views(out@) =~= before.push(records@[k as int]@));
        }
        k += 1;
    }
    assert(record_views(records@).take(k as int) =~= record_views(records@));
    out
}

/// The records whose type belongs to the given family, in their order.
pub fn records_of_family(records: &[MammogramRecord], two_d: bool) -> (r: Vec<MammogramRecord>)
    ensures
        record_views(r@) == family_pool(record_views(records@), two_d),
{
    let ghost keep = |r: RecordView| in_family(r.metadata.mammogram_type, two_d);
    let mut out: Vec<MammogramRecord> = Vec::new();
    let mut k: usize = 0;
    assert(record_views(records@).take(0) =~= Seq::<RecordView>::empty());
    assert(record_views(out@) =~= Seq::<RecordView>::empty());
    while k < records.len()
        invariant
            k <= records.len(),
            keep == (|r: RecordView| in_family(r.metadata.mammogram_type, two_d)),
            record_views(out@) == kept_by(record_views(records@).take(k as int), keep),
        decreases records.len() - k,
    {
        let ghost before = record_views(out@);
        assert(record_views(records@).take(k + 1).drop_last() =~= record_views(records@).take(
            k as int,
        ));
        assert(record_views(records@).take(k + 1).last() == records@[k as int]@);
        if type_in_family(&records[k].metadata.mammogram_type, two_d) {
            out.push(records[k].clone());
            assert(record_views(out@) =~= before.push(records@[k as int]@));
        }
        k += 1;
    }
    assert(record_views(records@).take(k as int) =~= record_views(records@));
    out
}

/// The most preferred candidate for a view among the records, taken in
/// order. `None` where no record is a candidate.
pub fn select_for_view(
    records: &[MammogramRecord],
    target: &MammogramView,
    order: PreferenceOrder,
) -> (r: Option<MammogramRecord>)
    ensures
        opt_record(r) == best_for(record_views(records@), *target, order),
{
    let mut best: Option<usize> = None;
    let mut k: usize = 0;
    assert(record_views(records@).take(0) =~= Seq::<RecordView>::empty());
    while k < records.len()
        invariant
            k <= records.len(),
            best matches Some(i) ==> i < k,
            best is None <==> best_for(record_views(records@).take(k as int), *target, order)
                is None,
            best matches Some(i) ==> best_for(
                record_views(records@).take(k as int),
                *target,
                order,
            ) == Some(records@[i as int]@),
        decreases records.len() - k,
    {
        assert(record_views(records@).take(k + 1).drop_last() =~= record_views(records@).take(
            k as int,
        ));
        assert(record_views(records@).take(k + 1).last() == records@[k as int]@);
        if is_candidate_for_view(&records[k], target) {
            match best {
                None => {
                    best = Some(k);
                },
                Some(i) => {
                    if records[k].is_preferred_to_with_order(&records[i], order) {
                        best = Some(k);
                    }
                },
            }
        }
        k += 1;
    }
    assert(record_views(records@).take(k as int) =~= record_views(records@));
    match best {
        Some(i) => Some(records[i].clone()),
        None => None,
    }
}

/// The selection among the records under the default order.
pub fn get_preferred_views(records: &[MammogramRecord]) -> (r: PreferredViews)
    ensures
        r@ == selection_of(record_views(records@), PreferenceOrder::Default),
{
    get_preferred_views_with_order(records, PreferenceOrder::Default)
}

/// The selection among the records: for each of the four standard views,
/// the most preferred candidate under `order`, or none where the view has
/// no candidate.
pub fn get_preferred_views_with_order(records: &[MammogramRecord], order: PreferenceOrder) -> (r:
    PreferredViews)
    ensures
        r@ == selection_of(record_views(records@), order),
{
    let r = PreferredViews {
        left_mlo: select_for_view(
            records,
            &MammogramView { laterality: Laterality::Left, view: ViewPosition::Mlo },
            order,
        ),
        right_mlo: select_for_view(
            records,
            &MammogramView { laterality: Laterality::Right, view: ViewPosition::Mlo },
            order,
        ),
        left_cc: select_for_view(
            records,
            &MammogramView { laterality: Laterality::Left, view: ViewPosition::Cc },
            order,
        ),
        right_cc: select_for_view(
            records,
            &MammogramView { laterality: Laterality::Right, view: ViewPosition::Cc },
            order,
        ),
    };
    assert(r@ =~= selection_of(record_views(records@), order));
    r
}

/// The selection among the records in which all views come from one
/// family.
pub fn select_common_modality(records: &[MammogramRecord], order: PreferenceOrder) -> (r:
    PreferredViews)
    ensures
        r@ == common_modality_selection(record_views(records@), order),
{
    let plain = get_preferred_views_with_order(records, order);
    if plain.is_within_family(true) || plain.is_within_family(false) {
        return plain;
    }
    let pool_2d = records_of_family(records, true);
    let pool_3d = records_of_family(records, false);
    let two_d = get_preferred_views_with_order(pool_2d.as_slice(), order);
    let three_d = get_preferred_views_with_order(pool_3d.as_slice(), order);
    let cover_2d = two_d.coverage();
    let cover_3d = three_d.coverage();
    if cover_3d > cover_2d || (cover_3d == cover_2d && three_d.score(order) < two_d.score(order)) {
        three_d
    } else {
        two_d
    }
}

/// The selection among the records that a configuration lets through. The
/// filters apply before anything is selected. Where the configuration
/// requires a common modality, all selected views come from one family.
pub fn get_preferred_views_filtered(
    records: &[MammogramRecord],
    filter_config: &FilterConfig,
    preference_order: PreferenceOrder,
) -> (r: PreferredViews)
    ensures
        r@ == filtered_selection(record_views(records@), *filter_config, preference_order),
{
    let filtered_records = apply_filters(records, filter_config);
    if filter_config.require_common_modality {
        select_common_modality(filtered_records.as_slice(), preference_order)
    } else {
        get_preferred_views_with_order(filtered_records.as_slice(), preference_order)
    }
}

/// What is selected for a view is one of the records and a candidate for
/// the view, and something is selected exactly when there is a candidate.
pub proof fn lemma_best_is_a_candidate(
    records: Seq<RecordView>,
    target: MammogramView,
    order: PreferenceOrder,
)
    ensures
        best_for(records, target, order) matches Some(r) ==> records.contains(r) && is_candidate(
            r,
            target,
        ),
        best_for(records, target, order) is None <==> forall|i: int|
            0 <= i < records.len() ==> !is_candidate(#[trigger] records[i], target),
    decreases records.len(),
{
    if records.len() > 0 {
        let head = records.drop_last();
        lemma_best_is_a_candidate(head, target, order);
        assert(records.last() == records[records.len() - 1]);
        assert forall|i: int| 0 <= i < head.len() implies head[i] == records[i] by {}
        if let Some(r) = best_for(records, target, order) {
            if r != records.last() {
                assert(head.contains(r));
                let i = choose|i: int| 0 <= i < head.len() && head[i] == r;
                assert(records[i] == r);
            }
        }
        if best_for(records, target, order) is None {
            assert forall|i: int| 0 <= i < records.len() implies !is_candidate(
                #[trigger] records[i],
                target,
            ) by {
                if i < head.len() {
                    assert(head[i] == records[i]);
                }
            }
        } else if best_for(head, target, order) is None {
            assert(is_candidate(records[records.len() - 1], target));
        } else {
            let i = choose|i: int| 0 <= i < head.len() && is_candidate(#[trigger] head[i], target);
            assert(is_candidate(records[i], target));
        }
    }
}

/// The records that are kept are exactly the records that satisfy the
/// condition: each kept record is one of the records and satisfies it, and
/// each record that satisfies it is kept.
pub proof fn lemma_kept_by(records: Seq<RecordView>, keep: spec_fn(RecordView) -> bool)
    ensures
        forall|r: RecordView| #[trigger]
            kept_by(records, keep).contains(r) <==> records.contains(r) && keep(r),
    decreases records.len(),
{
    let kept = kept_by(records, keep);
    if records.len() == 0 {
        assert forall|r: RecordView| #[trigger] kept.contains(r) <==> records.contains(r) && keep(
            r,
        ) by {}
    } else {
        let head = records.drop_last();
        let last = records.last();
        lemma_kept_by(head, keep);
        let kept_head = kept_by(head, keep);
        assert forall|r: RecordView| #[trigger] kept.contains(r) <==> records.contains(r) && keep(
            r,
        ) by {
            if kept.contains(r) {
                let i = choose|i: int| 0 <= i < kept.len() && kept[i] == r;
                if keep(last) && i == kept.len() - 1 {
                    assert(records[records.len() - 1] == r);
                } else {
                    assert(kept_head[i] == r);
                    assert(kept_head.contains(r));
                    let j = choose|j: int| 0 <= j < head.len() && head[j] == r;
                    assert(records[j] == r);
                }
            }
            if records.contains(r) && keep(r) {
                let j = choose|j: int| 0 <= j < records.len() && records[j] == r;
                if j == records.len() - 1 {
                    assert(kept[kept.len() - 1] == r);
                } else {
                    assert(head[j] == r);
                    assert(kept_head.contains(r));
                    let i = choose|i: int| 0 <= i < kept_head.len() && kept_head[i] == r;
                    assert(kept[i] == r);
                }
            }
        }
    }
}

/// Every record of a common-modality selection is one of the records and a
/// candidate for its view.
pub proof fn lemma_common_modality_selects_records(
    records: Seq<RecordView>,
    order: PreferenceOrder,
    v: MammogramView,
)
    requires
        v.canonical(),
    ensures
        common_modality_selection(records, order)[v] matches Some(r) ==> records.contains(r)
            && is_candidate(r, v),
{
    lemma_best_is_a_candidate(records, v, order);
    lemma_best_is_a_candidate(family_pool(records, true), v, order);
    lemma_best_is_a_candidate(family_pool(records, false), v, order);
    lemma_kept_by(records, |r: RecordView| in_family(r.metadata.mammogram_type, true));
    lemma_kept_by(records, |r: RecordView| in_family(r.metadata.mammogram_type, false));
}

/// Filters are respected: whatever is selected for a view has passed every
/// enabled rule of the configuration, is one of the records, and is a
/// candidate for the view. In particular, with a set of allowed types,
/// every selected record has one of those types.
pub proof fn lemma_selection_respects_filters(
    records: Seq<RecordView>,
    config: FilterConfig,
    order: PreferenceOrder,
    v: MammogramView,
)
    requires
        v.canonical(),
    ensures
        filtered_selection(records, config, order)[v] matches Some(r) ==> records.contains(r)
            && admits(config, r) && is_candidate(r, v) && (config.allowed_types matches Some(
            allowed,
        ) ==> allowed@.contains(r.metadata.mammogram_type)),
{
    let pool = filtered(records, config);
    lemma_kept_by(records, |r: RecordView| admits(config, r));
    lemma_best_is_a_candidate(pool, v, order);
    lemma_common_modality_selects_records(pool, order, v);
}

/// A common-modality selection draws from one family only: its populated
/// views are all 2D or all tomosynthesis. In particular none of them has
/// the type `Unknown`.
pub proof fn lemma_common_modality_is_single_family(
    records: Seq<RecordView>,
    order: PreferenceOrder,
)
    ensures
        single_family(common_modality_selection(records, order)),
        forall|v: MammogramView|
            v.canonical() ==> (#[trigger] common_modality_selection(records, order)[v] matches Some(
                r,
            ) ==> r.metadata.mammogram_type != MammogramType::Unknown),
{
    let plain = selection_of(records, order);
    if !single_family(plain) {
        let pool_2d = family_pool(records, true);
        let pool_3d = family_pool(records, false);
        let two_d = selection_of(pool_2d, order);
        let three_d = selection_of(pool_3d, order);
        lemma_kept_by(records, |r: RecordView| in_family(r.metadata.mammogram_type, true));
        lemma_kept_by(records, |r: RecordView| in_family(r.metadata.mammogram_type, false));
        assert forall|v: MammogramView| v.canonical() implies (#[trigger] two_d[v] matches Some(
            r,
        ) ==> in_family(r.metadata.mammogram_type, true)) by {
            lemma_best_is_a_candidate(pool_2d, v, order);
        }
        assert forall|v: MammogramView| v.canonical() implies (#[trigger] three_d[v] matches Some(
            r,
        ) ==> in_family(r.metadata.mammogram_type, false)) by {
            lemma_best_is_a_candidate(pool_3d, v, order);
        }
        assert(within_family(two_d, true));
        assert(within_family(three_d, false));
    }
}

/// With the common modality required, a filtered selection draws from one
/// family only.
pub proof fn lemma_required_common_modality_holds(
    records: Seq<RecordView>,
    config: FilterConfig,
    order: PreferenceOrder,
)
    requires
        config.require_common_modality,
    ensures
        single_family(filtered_selection(records, config, order)),
{
    lemma_common_modality_is_single_family(filtered(records, config), order);
}

/// With no records nothing is selected: every view is empty and the
/// coverage is zero.
pub proof fn lemma_empty_selection(order: PreferenceOrder, config: FilterConfig, v: MammogramView)
    requires
        v.canonical(),
    ensures
        selection_of(Seq::empty(), order)[v] is None,
        coverage(selection_of(Seq::empty(), order)) == 0,
        filtered_selection(Seq::empty(), config, order)[v] is None,
{
    let none = Seq::<RecordView>::empty();
    assert(left_mlo().canonical() && right_mlo().canonical() && left_cc().canonical()
        && right_cc().canonical());
    assert(filtered(none, config) =~= none);
    assert(family_pool(none, true) =~= none);
    assert(family_pool(none, false) =~= none);
}

/// Of two candidates for a view, the second is selected exactly when it is
/// preferred to the first. So the order of preference between the types
/// decides between two candidates that are level on the criteria before
/// it: with FFDM and tomosynthesis, the default order selects FFDM and the
/// tomosynthesis-first order selects tomosynthesis.
pub proof fn lemma_best_of_two(
    a: RecordView,
    b: RecordView,
    target: MammogramView,
    order: PreferenceOrder,
)
    requires
        is_candidate(a, target),
        is_candidate(b, target),
    ensures
        best_for(seq![a, b], target, order) == Some(
            if b.preferred_to(a, order) {
                b
            } else {
                a
            },
        ),
        a.standard() == b.standard() && a.plain() == b.plain() && !(a.same_study(b)
            && a.is_implant_displaced != b.is_implant_displaced) && order.rank(
            a.metadata.mammogram_type,
        ) < order.rank(b.metadata.mammogram_type) ==> best_for(seq![a, b], target, order)
            == Some(a) && best_for(seq![b, a], target, order) == Some(a),
{
    reveal_with_fuel(best_for, 3);
    let ab = seq![a, b];
    assert(ab.drop_last() =~= seq![a]);
    assert(seq![a].drop_last() =~= Seq::<RecordView>::empty());
    assert(best_for(seq![a], target, order) == Some(a));
    let ba = seq![b, a];
    assert(ba.drop_last() =~= seq![b]);
    assert(seq![b].drop_last() =~= Seq::<RecordView>::empty());
    assert(best_for(seq![b], target, order) == Some(b));
}

/// A candidate that is preferred to every other candidate is selected,
/// wherever it stands among the records: in that case the order of the
/// records does not matter.
pub proof fn lemma_dominant_candidate_is_selected(
    records: Seq<RecordView>,
    target: MammogramView,
    order: PreferenceOrder,
    winner: RecordView,
)
    requires
        records.contains(winner),
        is_candidate(winner, target),
        forall|i: int|
            0 <= i < records.len() && is_candidate(#[trigger] records[i], target) && records[i]
                != winner ==> winner.preferred_to(records[i], order),
    ensures
        best_for(records, target, order) == Some(winner),
    decreases records.len(),
{
    let head = records.drop_last();
    let last = records.last();
    assert forall|i: int| 0 <= i < head.len() implies head[i] == records[i] by {}
    lemma_preference_is_asymmetric(winner, last, order);
    if head.contains(winner) {
        lemma_dominant_candidate_is_selected(head, target, order, winner);
    } else {
        let i = choose|i: int| 0 <= i < records.len() && records[i] == winner;
        assert(i == records.len() - 1);
        lemma_best_is_a_candidate(head, target, order);
        if let Some(b) = best_for(head, target, order) {
            let j = choose|j: int| 0 <= j < head.len() && head[j] == b;
            assert(records[j] == b);
        }
    }
}

/// Whether all candidates for a view among the records state the same
/// study, or all state none.
pub open spec fn candidates_share_study(records: Seq<RecordView>, target: MammogramView) -> bool {
    forall|i: int, j: int|
        0 <= i < records.len() && 0 <= j < records.len() && is_candidate(
            #[trigger] records[i],
            target,
        ) && is_candidate(#[trigger] records[j], target) ==> records[i].study_instance_uid
            == records[j].study_instance_uid
}

/// Where the candidates for a view come from one study, what is selected
/// is most preferred: no candidate is preferred to it.
pub proof fn lemma_selected_is_most_preferred(
    records: Seq<RecordView>,
    target: MammogramView,
    order: PreferenceOrder,
)
    requires
        candidates_share_study(records, target),
    ensures
        best_for(records, target, order) matches Some(best) ==> forall|i: int|
            0 <= i < records.len() && is_candidate(#[trigger] records[i], target)
                ==> !records[i].preferred_to(best, order),
    decreases records.len(),
{
    if records.len() > 0 {
        let head = records.drop_last();
        let last = records.last();
        assert forall|i: int| 0 <= i < head.len() implies head[i] == records[i] by {}
        assert(candidates_share_study(head, target)) by {
            assert forall|i: int, j: int|
                0 <= i < head.len() && 0 <= j < head.len() && is_candidate(
                    #[trigger] head[i],
                    target,
                ) && is_candidate(#[trigger] head[j], target) implies head[i].study_instance_uid
                == head[j].study_instance_uid by {
                assert(head[i] == records[i] && head[j] == records[j]);
            }
        }
        lemma_selected_is_most_preferred(head, target, order);
        lemma_best_is_a_candidate(head, target, order);
        if let Some(best) = best_for(records, target, order) {
            assert forall|i: int|
                0 <= i < records.len() && is_candidate(
                    #[trigger] records[i],
                    target,
                ) implies !records[i].preferred_to(best, order) by {
                lemma_preference_is_asymmetric(records[i], best, order);
                if let Some(before) = best_for(head, target, order) {
                    let k = choose|k: int| 0 <= k < head.len() && head[k] == before;
                    assert(records[k] == before);
                    assert(records[records.len() - 1] == last);
                    if i < head.len() {
                        assert(head[i] == records[i]);
                        if best != before && records[i].preferred_to(best, order) {
                            lemma_preference_is_transitive_within_a_study(
                                records[i],
                                best,
                                before,
                                order,
                            );
                        }
                    }
                } else {
                    if i < head.len() {
                        assert(head[i] == records[i]);
                    }
                }
            }
        }
    }
}

/// A configuration with every rule off and no set of allowed types lets
/// every record through, so that a filtered selection under it is the plain
/// selection.
pub proof fn lemma_permissive_keeps_everything(
    records: Seq<RecordView>,
    config: FilterConfig,
    order: PreferenceOrder,
)
    requires
        config.allowed_types is None,
        !config.exclude_implants,
        !config.exclude_non_standard_views,
        !config.exclude_for_processing,
        !config.exclude_secondary_capture,
        !config.exclude_non_mg_modality,
    ensures
        filtered(records, config) == records,
        !config.require_common_modality ==> filtered_selection(records, config, order)
            == selection_of(records, order),
    decreases records.len(),
{
    if records.len() > 0 {
        lemma_permissive_keeps_everything(records.drop_last(), config, order);
        assert(records.drop_last().push(records.last()) =~= records);
    }
}

} // verus!

use crate::coordinate::coordinate_of;
use crate::decode::container_fields;
use crate::error::{Error, ErrorView};
use crate::feature::{
    feature_of, feature_of_record, get_feature, Feature, FeatureView, Source, SourceView,
};
use crate::property::Property;
use crate::record::FieldView;
use crate::tag::Tag;
use vstd::prelude::*;
use vstd::string::*;

verus! {

/// What is reported of a photo that gives no feature.
#[derive(Debug)]
pub struct Diagnostic {
    /// The label of the photo.
    pub source: String,
    /// Why it gives no feature.
    pub error: Error,
}

/// A diagnostic over sequences.
pub struct DiagnosticView {
    pub source: Seq<char>,
    pub error: ErrorView,
}

impl View for Diagnostic {
    type V = DiagnosticView;

    open spec fn view(&self) -> DiagnosticView {
        DiagnosticView { source: self.source@, error: self.error@ }
    }
}

impl DiagnosticView {
    /// The line that reports the failure: the photo, a colon, and what went wrong.
    pub open spec fn line(self) -> Seq<char> {
        self.source + ": "@ + self.error.message()
    }
}

impl Diagnostic {
    /// The line that reports the failure: the photo, a colon, and what went wrong.
    pub fn line(&self) -> (text: String)
        ensures
            text@ == self@.line(),
    {
        let message = self.error.message();
        self.source.clone().concat(": ").concat(message.as_str())
    }
}

/// The features of a batch of photos, in the order of the photos that gave them.
#[derive(Debug)]
pub struct FeatureCollection {
    pub features: Vec<Feature>,
}

impl View for FeatureCollection {
    type V = Seq<FeatureView>;

    open spec fn view(&self) -> Seq<FeatureView> {
        self.features@.map_values(|feature: Feature| feature@)
    }
}

/// What a batch of photos gives: the collection of its features, and a diagnostic for each
/// photo that gave none.
#[derive(Debug)]
pub struct Report {
    pub collection: FeatureCollection,
    pub diagnostics: Vec<Diagnostic>,
}

/// A report over sequences.
pub struct ReportView {
    pub features: Seq<FeatureView>,
    pub diagnostics: Seq<DiagnosticView>,
}

impl View for Report {
    type V = ReportView;

    open spec fn view(&self) -> ReportView {
        ReportView {
            features: self.collection@,
            diagnostics: self.diagnostics@.map_values(|diagnostic: Diagnostic| diagnostic@),
        }
    }
}

impl ReportView {
    /// The report after one more photo: a feature more where the photo gave one, else a
    /// diagnostic more.
    pub open spec fn with_outcome(self, label: Seq<char>, outcome: Result<FeatureView, ErrorView>)
        -> ReportView {
        match outcome {
            Ok(feature) => ReportView {
                features: self.features.push(feature),
                diagnostics: self.diagnostics,
            },
            Err(error) => ReportView {
                features: self.features,
                diagnostics: self.diagnostics.push(DiagnosticView { source: label, error }),
            },
        }
    }
}

/// The report of a batch: the photos taken one after the other, from the first.
pub open spec fn report_of(sources: Seq<SourceView>, selectors: Seq<Property>) -> ReportView
    decreases sources.len(),
{
    if sources.len() == 0 {
        ReportView { features: Seq::empty(), diagnostics: Seq::empty() }
    } else {
        report_of(sources.drop_last(), selectors).with_outcome(
            sources.last().label,
            feature_of(sources.last(), selectors),
        )
    }
}

/// The photos of a batch over sequences.
pub open spec fn source_views(sources: Seq<Source>) -> Seq<SourceView> {
    sources.map_values(|source: Source| source@)
}

impl Report {
    /// Every feature of the report is well formed.
    pub open spec fn wf(self) -> bool {
        forall|i: int| 0 <= i < self.collection.features.len() ==> (
        #[trigger] self.collection.features[i]).wf()
    }

    /// The report of a batch without photos.
    pub fn new() -> (report: Report)
        ensures
            report.wf(),
            report@ == (ReportView { features: Seq::empty(), diagnostics: Seq::empty() }),
    {
        let report = Report {
            collection: FeatureCollection { features: Vec::new() },
            diagnostics: Vec::new(),
        };
        assert(report@.features =~= Seq::empty());
        assert(report@.diagnostics =~= Seq::empty());
        report
    }

    /// Takes in what one photo gave: its feature goes to the end of the collection, its
    /// error to the end of the diagnostics. An error changes nothing in the collection.
    pub fn record(&mut self, label: &str, outcome: Result<Feature, Error>)
        ensures
            old(self).wf() && (outcome matches Ok(feature) ==> feature.wf()) ==> final(self).wf(),
            final(self)@ == old(self)@.with_outcome(
                label@,
                match outcome {
                    Ok(feature) => Ok(feature@),
                    Err(error) => Err(error@),
                },
            ),
    {
        match outcome {
            Ok(feature) => {
                self.collection.features.push(feature);
                assert(self@.features == old(self)@.features.push(feature@));
                assert(self@.diagnostics == old(self)@.diagnostics);
            },
            Err(error) => {
                let diagnostic = Diagnostic { source: String::from_str(label), error };
                self.diagnostics.push(diagnostic);
                assert(self@.diagnostics == old(self)@.diagnostics.push(diagnostic@));
                assert(self@.features == old(self)@.features);
            },
        }
    }

    /// Processes one photo and takes in what it gave.
    pub fn process(&mut self, source: &Source, selectors: &[Property])
        ensures
            old(self).wf() ==> final(self).wf(),
            final(self)@ == old(self)@.with_outcome(source@.label, feature_of(source@, selectors@)),
    {
        let outcome = get_feature(source, selectors);
        self.record(source.label.as_str(), outcome);
    }
}

/// Processes the photos in the order given. Each photo that gives a feature adds it to the
/// collection; each other one adds a diagnostic and nothing else, and the batch goes on.
pub fn collect(sources: &[Source], selectors: &[Property]) -> (report: Report)
    ensures
        report.wf(),
        report@ == report_of(source_views(sources@), selectors@),
{
    let mut report = Report::new();
    assert(source_views(sources@).take(0).len() == 0);
    let mut i: usize = 0;
    while i < sources.len()
        invariant
            i <= sources.len(),
            report.wf(),
            report@ == report_of(source_views(sources@).take(i as int), selectors@),
        decreases sources.len() - i,
    {
        proof {
            let next = source_views(sources@).take(i + 1);
            assert(next.drop_last() == source_views(sources@).take(i as int));
            assert(next.last() == sources[i as int]@);
        }
        report.process(&sources[i], selectors);
        i += 1;
    }
    assert(source_views(sources@).take(i as int) == source_views(sources@));
    report
}

/// Every photo of a batch is answered once: by a feature or by a diagnostic.
pub proof fn lemma_every_source_answered(sources: Seq<SourceView>, selectors: Seq<Property>)
    ensures
        report_of(sources, selectors).features.len() + report_of(
            sources,
            selectors,
        ).diagnostics.len() == sources.len(),
    decreases sources.len(),
{
    if sources.len() > 0 {
        lemma_every_source_answered(sources.drop_last(), selectors);
    }
}

/// The report of two batches in a row is the report of the first followed by that of the
/// second: what a photo gives does not depend on the photos around it, and the order of
/// the photos is the order of their features and of their diagnostics.
pub proof fn lemma_batches_in_a_row(
    first: Seq<SourceView>,
    second: Seq<SourceView>,
    selectors: Seq<Property>,
)
    ensures
        report_of(first + second, selectors).features == report_of(first, selectors).features
            + report_of(second, selectors).features,
        report_of(first + second, selectors).diagnostics == report_of(
            first,
            selectors,
        ).diagnostics + report_of(second, selectors).diagnostics,
    decreases second.len(),
{
    if second.len() == 0 {
        assert(first + second == first);
    } else {
        assert((first + second).drop_last() == first + second.drop_last());
        assert((first + second).last() == second.last());
        lemma_batches_in_a_row(first, second.drop_last(), selectors);
    }
}

/// A photo that fails is left out of the collection and reported once; the photos before
/// it and after it give what they give without it.
pub proof fn lemma_failure_is_skipped(
    before: Seq<SourceView>,
    failing: SourceView,
    after: Seq<SourceView>,
    selectors: Seq<Property>,
)
    requires
        feature_of(failing, selectors) is Err,
    ensures
        report_of(before.push(failing) + after, selectors).features == report_of(
            before + after,
            selectors,
        ).features,
        report_of(before.push(failing) + after, selectors).diagnostics == report_of(
            before,
            selectors,
        ).diagnostics.push(
            DiagnosticView { source: failing.label, error: feature_of(failing, selectors)->Err_0 },
        ) + report_of(after, selectors).diagnostics,
{
    lemma_batches_in_a_row(before.push(failing), after, selectors);
    lemma_batches_in_a_row(before, after, selectors);
    assert(before.push(failing).drop_last() == before);
}

/// A photo whose metadata lacks the latitude field fails, and the error names that field,
/// whatever else the photo holds and whatever properties are asked for.
pub proof fn lemma_missing_latitude_fails(
    source: SourceView,
    record: Map<Tag, FieldView>,
    selectors: Seq<Property>,
)
    requires
        !record.contains_key(Tag::GPSLatitude),
    ensures
        feature_of_record(source, record, selectors) == Err::<FeatureView, ErrorView>(
            ErrorView::FieldMissing(Tag::GPSLatitude),
        ),
        source.contents is Ok && container_fields(source.contents->Ok_0) == Ok::<
            Map<Tag, FieldView>,
            Seq<char>,
        >(record) ==> feature_of(source, selectors) == Err::<FeatureView, ErrorView>(
            ErrorView::FieldMissing(Tag::GPSLatitude),
        ),
{
    assert(coordinate_of(record) is Err);
}

/// A batch in which every photo fails gives an empty collection and a diagnostic for each
/// photo.
pub proof fn lemma_all_failures_give_empty_collection(
    sources: Seq<SourceView>,
    selectors: Seq<Property>,
)
    requires
        forall|i: int| 0 <= i < sources.len() ==> feature_of(#[trigger] sources[i], selectors) is Err,
    ensures
        report_of(sources, selectors).features.len() == 0,
        report_of(sources, selectors).diagnostics.len() == sources.len(),
    decreases sources.len(),
{
    if sources.len() > 0 {
        assert(feature_of(sources[sources.len() - 1], selectors) is Err);
        assert forall|i: int| 0 <= i < sources.drop_last().len() implies feature_of(
            #[trigger] sources.drop_last()[i],
            selectors,
        ) is Err by {
            assert(sources.drop_last()[i] == sources[i]);
        }
        lemma_all_failures_give_empty_collection(sources.drop_last(), selectors);
    }
}

} // verus!

//! The discriminator of a row: which of the four feature shapes it holds.

use vstd::prelude::*;

verus! {

/// The four shapes a feature can take. A row carries its kind as text in
/// `feature_type`; any other text there belongs to no kind.
#[derive(Clone, Copy, Debug, PartialEq, Eq, Structural)]
pub enum FeatureKind {
    Category,
    Product,
    Service,
    System,
}

impl FeatureKind {
    /// The text that stands for this kind in a row's `feature_type`.
    pub open spec fn tag(self) -> Seq<char> {
        match self {
            FeatureKind::Category => "category"@,
            FeatureKind::Product => "product"@,
            FeatureKind::Service => "service"@,
            FeatureKind::System => "system"@,
        }
    }

    /// The kind that `tag` stands for, if it stands for one.
    pub open spec fn of_tag(tag: Seq<char>) -> Option<FeatureKind> {
        if tag == FeatureKind::Category.tag() {
            Some(FeatureKind::Category)
        } else if tag == FeatureKind::Product.tag() {
            Some(FeatureKind::Product)
        } else if tag == FeatureKind::Service.tag() {
            Some(FeatureKind::Service)
        } else if tag == FeatureKind::System.tag() {
            Some(FeatureKind::System)
        } else {
            None
        }
    }

    /// The four tags are pairwise different, so a tag names at most one kind.
    pub proof fn lemma_tags_distinct()
        ensures
            forall|a: FeatureKind, b: FeatureKind| a != b ==> #[trigger] a.tag() != #[trigger] b.tag(),
            forall|k: FeatureKind| #[trigger] FeatureKind::of_tag(k.tag()) == Some(k),
            forall|k: FeatureKind| (#[trigger] k.tag()).len() > 0,
    {
        reveal_strlit("category");
        reveal_strlit("product");
        reveal_strlit("service");
        reveal_strlit("system");
        assert("system"@.len() == 6);
        assert("product"@[0] == 'p');
        assert("service"@[0] == 's');
    }

    /// The tag as an owned string, ready to be stored in a row.
    pub fn name(&self) -> (text: String)
        ensures
            text@ == self.tag(),
    {
        match self {
            FeatureKind::Category => "category".to_owned(),
            FeatureKind::Product => "product".to_owned(),
            FeatureKind::Service => "service".to_owned(),
            FeatureKind::System => "system".to_owned(),
        }
    }

    /// Reads a row's `feature_type`.
    pub fn parse(feature_type: &String) -> (kind: Option<FeatureKind>)
        ensures
            kind == FeatureKind::of_tag(feature_type@),
    {
        if *feature_type == FeatureKind::Category.name() {
            Some(FeatureKind::Category)
        } else if *feature_type == FeatureKind::Product.name() {
            Some(FeatureKind::Product)
        } else if *feature_type == FeatureKind::Service.name() {
            Some(FeatureKind::Service)
        } else if *feature_type == FeatureKind::System.name() {
            Some(FeatureKind::System)
        } else {
            None
        }
    }

    /// Whether a row's `feature_type` names this kind.
    pub fn matches_tag(&self, feature_type: &String) -> (same: bool)
        ensures
            same == (feature_type@ == self.tag()),
    {
        *feature_type == self.name()
    }
}

} // verus!

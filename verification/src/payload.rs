//! The activity payload model and its translation into an outgoing
//! activity descriptor.
//!
//! A payload arrives with every field optional. The translation applies the
//! empty-string-as-absent policy to each text field, builds a timestamp
//! range when either bound is present, and builds an asset group when any of
//! the four asset fields is present, each attached independently.
use vstd::prelude::*;

verus! {

/// An inbound rich-presence request: every field is optional, and text
/// fields given as the empty string are treated as absent.
#[derive(Debug)]
pub struct ActivityPayload {
    pub details: Option<String>,
    pub state: Option<String>,
    pub start_timestamp: Option<i64>,
    pub end_timestamp: Option<i64>,
    pub large_image: Option<String>,
    pub large_text: Option<String>,
    pub small_image: Option<String>,
    pub small_text: Option<String>,
}

/// A one- or two-sided timestamp range attached to an activity.
#[derive(Debug)]
pub struct TimestampRange {
    pub start: Option<i64>,
    pub end: Option<i64>,
}

/// The image keys and hover texts attached to an activity, each
/// independently optional.
#[derive(Debug)]
pub struct AssetSet {
    pub large_image: Option<String>,
    pub large_text: Option<String>,
    pub small_image: Option<String>,
    pub small_text: Option<String>,
}

/// The outgoing activity descriptor: a field that is `None` is omitted from
/// the submitted activity.
#[derive(Debug)]
pub struct ActivityDescriptor {
    pub details: Option<String>,
    pub state: Option<String>,
    pub timestamps: Option<TimestampRange>,
    pub assets: Option<AssetSet>,
}

/// Mathematical model of a payload.
#[verifier::ext_equal]
pub ghost struct PayloadView {
    pub details: Option<Seq<char>>,
    pub state: Option<Seq<char>>,
    pub start_timestamp: Option<int>,
    pub end_timestamp: Option<int>,
    pub large_image: Option<Seq<char>>,
    pub large_text: Option<Seq<char>>,
    pub small_image: Option<Seq<char>>,
    pub small_text: Option<Seq<char>>,
}

/// Mathematical model of a timestamp range.
#[verifier::ext_equal]
pub ghost struct TimestampRangeView {
    pub start: Option<int>,
    pub end: Option<int>,
}

/// Mathematical model of an asset group.
#[verifier::ext_equal]
pub ghost struct AssetSetView {
    pub large_image: Option<Seq<char>>,
    pub large_text: Option<Seq<char>>,
    pub small_image: Option<Seq<char>>,
    pub small_text: Option<Seq<char>>,
}

/// Mathematical model of a descriptor.
#[verifier::ext_equal]
pub ghost struct ActivityDescriptorView {
    pub details: Option<Seq<char>>,
    pub state: Option<Seq<char>>,
    pub timestamps: Option<TimestampRangeView>,
    pub assets: Option<AssetSetView>,
}

pub open spec fn opt_text_view(o: Option<String>) -> Option<Seq<char>> {
    match o {
        Some(s) => Some(s@),
        None => None,
    }
}

pub open spec fn opt_int_view(o: Option<i64>) -> Option<int> {
    match o {
        Some(n) => Some(n as int),
        None => None,
    }
}

impl View for ActivityPayload {
    type V = PayloadView;

    open spec fn view(&self) -> PayloadView {
        PayloadView {
            details: opt_text_view(self.details),
            state: opt_text_view(self.state),
            start_timestamp: opt_int_view(self.start_timestamp),
            end_timestamp: opt_int_view(self.end_timestamp),
            large_image: opt_text_view(self.large_image),
            large_text: opt_text_view(self.large_text),
            small_image: opt_text_view(self.small_image),
            small_text: opt_text_view(self.small_text),
        }
    }
}

impl View for TimestampRange {
    type V = TimestampRangeView;

    open spec fn view(&self) -> TimestampRangeView {
        TimestampRangeView { start: opt_int_view(self.start), end: opt_int_view(self.end) }
    }
}

impl View for AssetSet {
    type V = AssetSetView;

    open spec fn view(&self) -> AssetSetView {
        AssetSetView {
            large_image: opt_text_view(self.large_image),
            large_text: opt_text_view(self.large_text),
            small_image: opt_text_view(self.small_image),
            small_text: opt_text_view(self.small_text),
        }
    }
}

impl View for ActivityDescriptor {
    type V = ActivityDescriptorView;

    open spec fn view(&self) -> ActivityDescriptorView {
        ActivityDescriptorView {
            details: opt_text_view(self.details),
            state: opt_text_view(self.state),
            timestamps: match self.timestamps {
                Some(t) => Some(t@),
                None => None,
            },
            assets: match self.assets {
                Some(a) => Some(a@),
                None => None,
            },
        }
    }
}

/// The empty-string-as-absent policy: a text field takes part in the
/// outgoing activity only when it is present and non-empty.
pub open spec fn norm_text(t: Option<Seq<char>>) -> Option<Seq<char>> {
    match t {
        Some(s) => if s.len() > 0 {
            Some(s)
        } else {
            None
        },
        None => None,
    }
}

/// What the translation of a payload yields: text fields normalised, a
/// timestamp range exactly when either bound is present, an asset group
/// exactly when any asset field is present.
pub open spec fn spec_descriptor(p: PayloadView) -> ActivityDescriptorView {
    ActivityDescriptorView {
        details: norm_text(p.details),
        state: norm_text(p.state),
        timestamps: if p.start_timestamp is Some || p.end_timestamp is Some {
            Some(TimestampRangeView { start: p.start_timestamp, end: p.end_timestamp })
        } else {
            None
        },
        assets: if p.large_image is Some || p.large_text is Some || p.small_image is Some
            || p.small_text is Some {
            Some(
                AssetSetView {
                    large_image: norm_text(p.large_image),
                    large_text: norm_text(p.large_text),
                    small_image: norm_text(p.small_image),
                    small_text: norm_text(p.small_text),
                },
            )
        } else {
            None
        },
    }
}

/// Applies the empty-string-as-absent policy to one optional text field.
pub fn normalize_text(t: Option<String>) -> (r: Option<String>)
    ensures
        opt_text_view(r) == norm_text(opt_text_view(t)),
{
    match t {
        Some(s) => if s.as_str().is_empty() {
            None
        } else {
            Some(s)
        },
        None => None,
    }
}

/// Translates an inbound payload into the outgoing activity descriptor.
pub fn build_descriptor(p: ActivityPayload) -> (d: ActivityDescriptor)
    ensures
        d@ == spec_descriptor(p@),
{
    let timestamps = if p.start_timestamp.is_some() || p.end_timestamp.is_some() {
        Some(TimestampRange { start: p.start_timestamp, end: p.end_timestamp })
    } else {
        None
    };
    let assets = if p.large_image.is_some() || p.large_text.is_some() || p.small_image.is_some()
        || p.small_text.is_some() {
        Some(
            AssetSet {
                large_image: normalize_text(p.large_image),
                large_text: normalize_text(p.large_text),
                small_image: normalize_text(p.small_image),
                small_text: normalize_text(p.small_text),
            },
        )
    } else {
        None
    };
    ActivityDescriptor {
        details: normalize_text(p.details),
        state: normalize_text(p.state),
        timestamps,
        assets,
    }
}

/// A payload with every field absent still yields a descriptor — the empty
/// one — rather than no descriptor at all: the translation is total.
pub proof fn lemma_empty_payload_empty_descriptor(p: PayloadView)
    requires
        p.details is None,
        p.state is None,
        p.start_timestamp is None,
        p.end_timestamp is None,
        p.large_image is None,
        p.large_text is None,
        p.small_image is None,
        p.small_text is None,
    ensures
        spec_descriptor(p) == (ActivityDescriptorView {
            details: None,
            state: None,
            timestamps: None,
            assets: None,
        }),
{
}

/// A text field given as the empty string is omitted from the descriptor,
/// exactly as an absent field would be.
pub proof fn lemma_empty_text_omitted(p: PayloadView)
    requires
        p.details == Some(Seq::<char>::empty()),
    ensures
        spec_descriptor(p).details is None,
{
}

/// Asset fields are independently optional: a payload whose only asset field
/// is a non-empty large image yields an asset group with exactly that field
/// populated.
pub proof fn lemma_single_asset_field(p: PayloadView)
    requires
        p.large_image matches Some(s) && s.len() > 0,
        p.large_text is None,
        p.small_image is None,
        p.small_text is None,
    ensures
        spec_descriptor(p).assets matches Some(a) && a.large_image == p.large_image
            && a.large_text is None && a.small_image is None && a.small_text is None,
{
}

} // verus!

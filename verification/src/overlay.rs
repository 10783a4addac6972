//! Names of the full-screen overlay windows: each one gets a fresh label
//! built from a sequence number, and every label with the overlay prefix
//! is picked out again when the overlays are torn down.
use vstd::prelude::*;
use crate::text::{decimal, decimal_string, has_prefix, lemma_decimal_injective, starts_with_str};

verus! {

/// The prefix shared by all overlay window labels: `overlay`.
pub open spec fn overlay_prefix() -> Seq<char> {
    seq!['o', 'v', 'e', 'r', 'l', 'a', 'y']
}

/// The label of the overlay window with sequence number `n`: `overlay-<n>`.
pub open spec fn overlay_label_of(n: nat) -> Seq<char> {
    overlay_prefix().push('-') + decimal(n)
}

/// Whether a window label names an overlay window.
pub open spec fn names_overlay(label: Seq<char>) -> bool {
    has_prefix(label, overlay_prefix())
}

/// The labels of `labels` that name overlay windows, in their order.
pub open spec fn overlay_subset(labels: Seq<String>) -> Seq<String> {
    labels.filter(|l: String| names_overlay(l@))
}

/// The label for a new overlay window with sequence number `seq`.
pub fn overlay_label(seq: u64) -> (res: String)
    ensures
        res@ == overlay_label_of(seq as nat),
{
    let mut label = String::from_str("overlay-");
    proof {
        reveal_strlit("overlay-");
        assert("overlay-"@ =~= overlay_prefix().push('-'));
    }
    let digits = decimal_string(seq);
    label.append(digits.as_str());
    label
}

/// Whether `label` names an overlay window (it begins with `overlay`).
pub fn is_overlay_label(label: &str) -> (res: bool)
    ensures
        res == names_overlay(label@),
{
    proof {
        reveal_strlit("overlay");
        assert("overlay"@ =~= overlay_prefix());
    }
    starts_with_str(label, "overlay")
}

/// The labels among `labels` that name overlay windows, in their order.
pub fn overlay_labels(labels: &Vec<String>) -> (res: Vec<String>)
    ensures
        res@ == overlay_subset(labels@),
{
    let mut res: Vec<String> = Vec::new();
    for i in 0..labels.len()
        invariant
            res@ == overlay_subset(labels@.take(i as int)),
    {
        proof {
            reveal(Seq::filter);
            assert(labels@.take(i + 1).drop_last() =~= labels@.take(i as int));
        }
        if is_overlay_label(labels[i].as_str()) {
            res.push(labels[i].clone());
        }
    }
    assert(labels@.take(labels@.len() as int) =~= labels@);
    res
}

/// Picking the overlay labels keeps exactly the labels that begin with
/// `overlay`, from anywhere in the input: each one of them is picked, and
/// everything picked is such a label of the input.
pub proof fn law_every_overlay_label_is_picked(labels: Seq<String>)
    ensures
        forall|i: int| 0 <= i < labels.len() && #[trigger] names_overlay(labels[i]@)
            ==> overlay_subset(labels).contains(labels[i]),
        forall|l: String| #[trigger] overlay_subset(labels).contains(l)
            ==> labels.contains(l) && names_overlay(l@),
{
    let f = |l: String| names_overlay(l@);
    assert forall|i: int| 0 <= i < labels.len() && #[trigger] names_overlay(labels[i]@)
        implies overlay_subset(labels).contains(labels[i]) by {
        labels.lemma_filter_contains(f, i);
    }
    assert forall|l: String| #[trigger] overlay_subset(labels).contains(l)
        implies labels.contains(l) && names_overlay(l@) by {
        labels.lemma_filter_contains_rev(f, l);
        let k = choose|k: int| 0 <= k < labels.filter(f).len() && labels.filter(f)[k] == l;
        labels.lemma_filter_pred(f, k);
    }
}

/// What a screenshot does once the screen has been captured (or not).
#[derive(Debug, Clone, Copy, PartialEq, Eq, Structural)]
pub enum ScreenshotStep {
    /// Open the overlay over the whole screen, this many logical pixels
    /// wide and high, dock and menu bar included.
    OpenOverlay { width: u32, height: u32 },
    /// The capture failed: bring the main window back.
    RestoreMainWindow,
}

/// The step after a capture attempt: `full_size` is the full screen's
/// logical size when the capture succeeded.
pub fn after_capture(full_size: Option<(u32, u32)>) -> (res: ScreenshotStep)
    ensures
        match full_size {
            Some((w, h)) => res == (ScreenshotStep::OpenOverlay { width: w, height: h }),
            None => res == ScreenshotStep::RestoreMainWindow,
        },
{
    match full_size {
        Some((w, h)) => ScreenshotStep::OpenOverlay { width: w, height: h },
        None => ScreenshotStep::RestoreMainWindow,
    }
}

/// Every label handed to a new overlay window is recognised as an overlay
/// label, so tearing down the overlays always reaches it.
pub proof fn law_new_labels_are_overlay_labels(n: nat)
    ensures
        names_overlay(overlay_label_of(n)),
{
    assert(overlay_label_of(n).subrange(0, 7) =~= overlay_prefix());
}

/// Distinct sequence numbers give distinct overlay labels.
pub proof fn law_overlay_labels_unique(n: nat, m: nat)
    requires
        n != m,
    ensures
        overlay_label_of(n) != overlay_label_of(m),
{
    if overlay_label_of(n) == overlay_label_of(m) {
        let a = overlay_label_of(n);
        let b = overlay_label_of(m);
        assert(a.skip(8) =~= decimal(n));
        assert(b.skip(8) =~= decimal(m));
        lemma_decimal_injective(n, m);
    }
}

} // verus!

//! The list of recordings in the output folder: which directory entries
//! are recordings, how they are described, and their newest-first order.
use vstd::prelude::*;
use crate::state::opt_view;
use crate::text::{text_eq, text_le, text_le_exec, lemma_text_le_total, lemma_text_le_trans};

verus! {

broadcast use vstd::seq_lib::group_to_multiset_ensures;

/// A directory entry as read from disk: its full path, file name,
/// extension, size in bytes and creation time in seconds since the Unix
/// epoch, where the platform reports one.
pub struct DirEntryInfo {
    pub path: String,
    pub name: String,
    pub extension: Option<String>,
    pub size: u64,
    pub created_secs: Option<i64>,
}

/// A recording found in the output folder. Resolution and frame rate are
/// the capture defaults; no media metadata is read.
#[derive(Debug, Clone)]
pub struct RecordingFile {
    pub path: String,
    pub name: String,
    pub size: u64,
    pub resolution: String,
    pub frame_rate: u32,
    pub created_at: String,
    pub thumbnail: Option<String>,
}

/// The text `YYYY-MM-DD HH:MM:SS` (UTC) of a time in seconds since the
/// Unix epoch, or none where the time is out of chrono's range.
pub uninterp spec fn utc_datetime_text(secs: int) -> Option<Seq<char>>;

/// Relies on chrono::DateTime::from_timestamp, which gives `None` for an
/// out-of-range time, and on its `%Y-%m-%d %H:%M:%S` formatting; the text
/// depends on the seconds alone.
#[verifier::external_body]
fn utc_text(secs: i64) -> (r: Option<String>)
    ensures
        opt_view(r) == utc_datetime_text(secs as int),
{
    match chrono::DateTime::from_timestamp(secs, 0) {
        Some(dt) => Some(dt.format("%Y-%m-%d %H:%M:%S").to_string()),
        None => None,
    }
}

/// The entry is an MP4 recording.
pub open spec fn is_recording_entry(e: DirEntryInfo) -> bool {
    e.extension is Some && e.extension->Some_0@ == "mp4"@
}

/// The filter that keeps recording entries.
pub open spec fn recording_pred() -> spec_fn(DirEntryInfo) -> bool {
    |e: DirEntryInfo| is_recording_entry(e)
}

/// The creation text of an entry: its UTC date and time, or empty.
pub open spec fn created_text(e: DirEntryInfo) -> Seq<char> {
    match e.created_secs {
        Some(s) => match utc_datetime_text(s as int) {
            Some(t) => t,
            None => Seq::empty(),
        },
        None => Seq::empty(),
    }
}

/// `f` describes the entry `e`.
pub open spec fn describes(f: RecordingFile, e: DirEntryInfo) -> bool {
    &&& f.path@ == e.path@
    &&& f.name@ == e.name@
    &&& f.size == e.size
    &&& f.resolution@ == "1080p"@
    &&& f.frame_rate == 60
    &&& f.created_at@ == created_text(e)
    &&& f.thumbnail is None
}

/// The description of one recording entry.
pub fn describe_entry(e: DirEntryInfo) -> (r: RecordingFile)
    ensures
        describes(r, e),
{
    let created_at = match e.created_secs {
        Some(s) => match utc_text(s) {
            Some(t) => t,
            None => String::new(),
        },
        None => String::new(),
    };
    RecordingFile {
        path: e.path,
        name: e.name,
        size: e.size,
        resolution: String::from_str("1080p"),
        frame_rate: 60,
        created_at,
        thumbnail: None,
    }
}

/// The recordings among `entries`, described, in the order read.
pub fn recordings_in(entries: Vec<DirEntryInfo>) -> (r: Vec<RecordingFile>)
    ensures
        r@.len() == entries@.filter(recording_pred()).len(),
        forall|k: int|
            0 <= k < r@.len() ==> describes(
                #[trigger] r@[k],
                entries@.filter(recording_pred())[k],
            ),
{
    let ghost all = entries@;
    let ghost pred = recording_pred();
    let mut rest = entries;
    let mut kept: Vec<DirEntryInfo> = Vec::new();
    let ghost mut taken: Seq<DirEntryInfo> = Seq::empty();
    // Walk the entries from the back, collecting the recordings reversed.
    while rest.len() > 0
        invariant
            all == rest@ + taken,
            pred == recording_pred(),
            kept@ == taken.filter(pred).reverse(),
        decreases rest.len(),
    {
        let e = rest.pop().unwrap();
        let ghost t0 = taken;
        let ghost k0 = kept@;
        proof {
            taken = seq![e] + taken;
            assert(all == rest@ + taken);
        }
        let is_mp4 = match &e.extension {
            Some(x) => text_eq(x.as_str(), "mp4"),
            None => false,
        };
        assert(pred(e) == is_recording_entry(e));
        assert(is_mp4 == is_recording_entry(e));
        if is_mp4 {
            kept.push(e);
        }
        proof {
            assert(taken.drop_first() =~= t0);
            assert(taken.filter(pred) =~= if pred(e) {
                seq![e] + taken.drop_first().filter(pred)
            } else {
                taken.drop_first().filter(pred)
            }) by {
                lemma_filter_prepend(e, taken.drop_first(), pred);
                assert(taken.drop_first() =~= taken.subrange(1, taken.len() as int));
                assert(seq![e] + taken.drop_first() =~= taken);
            };
            if pred(e) {
                assert(kept@ =~= k0.push(e));
                assert((seq![e] + t0.filter(pred)).reverse() =~= t0.filter(pred).reverse().push(e));
            }
            assert(kept@ =~= taken.filter(pred).reverse());
        }
    }
    assert(taken =~= all);
    let mut out: Vec<RecordingFile> = Vec::new();
    let ghost recs = all.filter(pred);
    while kept.len() > 0
        invariant
            kept@ == recs.subrange(out@.len() as int, recs.len() as int).reverse(),
            recs == all.filter(recording_pred()),
            out@.len() <= recs.len(),
            forall|k: int| 0 <= k < out@.len() ==> describes(#[trigger] out@[k], recs[k]),
        decreases kept.len(),
    {
        let e = kept.pop().unwrap();
        proof {
            assert(e == recs[out@.len() as int]);
        }
        let f = describe_entry(e);
        out.push(f);
        proof {
            assert(kept@ =~= recs.subrange(out@.len() as int, recs.len() as int).reverse());
        }
    }
    out
}

proof fn lemma_filter_prepend(
    e: DirEntryInfo,
    s: Seq<DirEntryInfo>,
    pred: spec_fn(DirEntryInfo) -> bool,
)
    ensures
        (seq![e] + s).filter(pred) == if pred(e) {
            seq![e] + s.filter(pred)
        } else {
            s.filter(pred)
        },
    decreases s.len(),
{
    broadcast use vstd::seq_lib::group_seq_lib_default;

    if s.len() == 0 {
        assert(seq![e] + s =~= Seq::<DirEntryInfo>::empty().push(e));
        Seq::<DirEntryInfo>::empty().lemma_filter_push(e, pred);
        assert(s.filter(pred) =~= Seq::<DirEntryInfo>::empty());
    } else {
        let last = s.last();
        let init = s.drop_last();
        lemma_filter_prepend(e, init, pred);
        assert(seq![e] + s =~= (seq![e] + init).push(last));
        (seq![e] + init).lemma_filter_push(last, pred);
        init.lemma_filter_push(last, pred);
        assert(init.push(last) =~= s);
        if pred(e) {
            assert((seq![e] + init.filter(pred)).push(last) =~= seq![e] + init.filter(pred).push(
                last,
            ));
        }
    }
}

/// Newest first: each creation text comes after, or equals, every later one.
pub open spec fn newest_first(s: Seq<RecordingFile>) -> bool {
    forall|i: int, j: int|
        0 <= i < j < s.len() ==> text_le(#[trigger] s[j].created_at@, #[trigger] s[i].created_at@)
}

/// Orders recordings newest first by their creation text; recordings with
/// equal texts keep their order.
pub fn sort_newest_first(files: Vec<RecordingFile>) -> (r: Vec<RecordingFile>)
    ensures
        r@.to_multiset() == files@.to_multiset(),
        newest_first(r@),
{
    let ghost all = files@;
    let mut rest = files;
    let mut out: Vec<RecordingFile> = Vec::new();
    // Take from the back, inserting each before the first not newer than it.
    while rest.len() > 0
        invariant
            out@.to_multiset().add(rest@.to_multiset()) == all.to_multiset(),
            newest_first(out@),
        decreases rest.len(),
    {
        let ghost r0 = rest@;
        let f = rest.pop().unwrap();
        proof {
            assert(r0 =~= rest@.push(f));
            vstd::seq_lib::to_multiset_build(rest@, f);
        }
        let mut k: usize = 0;
        while k < out.len() && !text_le_exec(out[k].created_at.as_str(), f.created_at.as_str())
            invariant
                k <= out@.len(),
                forall|i: int| 0 <= i < k ==> text_le(f.created_at@, #[trigger] out@[i].created_at@),
            decreases out@.len() - k,
        {
            proof {
                lemma_text_le_total(out@[k as int].created_at@, f.created_at@, 0);
            }
            k = k + 1;
        }
        let ghost o0 = out@;
        proof {
            if k < o0.len() {
                assert forall|j: int| k <= j < o0.len() implies text_le(
                    #[trigger] o0[j].created_at@,
                    f.created_at@,
                ) by {
                    if j > k {
                        lemma_text_le_trans(o0[j].created_at@, o0[k as int].created_at@, f.created_at@, 0);
                    }
                }
            }
        }
        out.insert(k, f);
        proof {
            assert(out@ == o0.insert(k as int, f));
            assert forall|i: int, j: int| 0 <= i < j < out@.len() implies text_le(
                #[trigger] out@[j].created_at@,
                #[trigger] out@[i].created_at@,
            ) by {
                if i < k && j == k {
                } else if i < k && j > k {
                    lemma_text_le_trans(o0[j - 1].created_at@, f.created_at@, o0[i].created_at@, 0);
                } else if i == k {
                    assert(out@[j] == o0[j - 1]);
                } else if j < k {
                } else {
                    assert(out@[i] == o0[i - 1] && out@[j] == o0[j - 1]);
                }
            }
        }
    }
    proof {
        assert(rest@.to_multiset() =~= vstd::multiset::Multiset::empty());
    }
    out
}

/// The recordings among `entries`, described and ordered newest first.
pub fn collect_recordings(entries: Vec<DirEntryInfo>) -> (r: Vec<RecordingFile>)
    ensures
        exists|found: Seq<RecordingFile>|
            {
                &&& found.len() == entries@.filter(recording_pred()).len()
                &&& forall|k: int|
                    0 <= k < found.len() ==> describes(
                        #[trigger] found[k],
                        entries@.filter(recording_pred())[k],
                    )
                &&& r@.to_multiset() == #[trigger] found.to_multiset()
            },
        newest_first(r@),
{
    let found = recordings_in(entries);
    let ghost fv = found@;
    let r = sort_newest_first(found);
    assert(r@.to_multiset() == fv.to_multiset());
    r
}

} // verus!

//! Decisions of the video writer: the name of each recording, the encoder
//! options, and what happens to a finished recording.

use vstd::prelude::*;
use crate::config::{CloudConfig, FileSourceType, StorageConfig, video_extension};
use crate::text::{count_char, join_with, lemma_split_on_pieces, split, split_on, split_terminated, views};

verus! {

/// A `key=value` piece as its key and value, when it holds exactly one `=`.
pub open spec fn option_pair(piece: Seq<char>) -> Option<(Seq<char>, Seq<char>)> {
    let t = split_on(piece, '=');
    if t.len() == 2 {
        Some((t[0], t[1]))
    } else {
        None
    }
}

/// The options written as `key=value` pieces separated by commas (a trailing
/// comma allowed), in order; when any piece is not of that form, no options at all.
pub open spec fn parsed_options(s: Seq<char>) -> Seq<(Seq<char>, Seq<char>)> {
    let pieces = split_terminated(s, ',');
    if forall|i: int| 0 <= i < pieces.len() ==> #[trigger] option_pair(pieces[i]) is Some {
        pieces.map_values(|p: Seq<char>| option_pair(p).unwrap())
    } else {
        seq![]
    }
}

/// The characters of each key and value of a list of options.
pub open spec fn pair_views(v: Seq<(String, String)>) -> Seq<(Seq<char>, Seq<char>)> {
    v.map_values(|p: (String, String)| (p.0@, p.1@))
}

/// A split always has at least one piece.
pub proof fn lemma_split_on_nonempty(s: Seq<char>, sep: char)
    ensures
        split_on(s, sep).len() >= 1,
    decreases s.len(),
{
    if s.len() > 0 {
        lemma_split_on_nonempty(s.drop_last(), sep);
    }
}

/// The options are the pieces between commas, one pair per piece and in
/// order, each piece being its key, `=`, and its value, with no `=` in the key
/// or the value; when some piece does not hold exactly one `=`, there are no
/// options at all.
pub proof fn lemma_parsed_options(s: Seq<char>)
    ensures
        (forall|i: int|
            0 <= i < split_terminated(s, ',').len() ==> count_char(#[trigger] split_terminated(s, ',')[i], '=')
                == 1) ==> {
            &&& parsed_options(s).len() == split_terminated(s, ',').len()
            &&& forall|i: int|
                0 <= i < parsed_options(s).len() ==> {
                    &&& (#[trigger] parsed_options(s)[i]).0 + seq!['='] + parsed_options(s)[i].1
                        == split_terminated(s, ',')[i]
                    &&& !parsed_options(s)[i].0.contains('=')
                    &&& !parsed_options(s)[i].1.contains('=')
                }
        },
        (exists|i: int|
            0 <= i < split_terminated(s, ',').len() && count_char(#[trigger] split_terminated(s, ',')[i], '=')
                != 1) ==> parsed_options(s).len() == 0,
{
    let pieces = split_terminated(s, ',');
    assert forall|i: int| 0 <= i < pieces.len() implies (#[trigger] option_pair(pieces[i]) is Some) == (
    count_char(pieces[i], '=') == 1) && (count_char(pieces[i], '=') == 1 ==> {
        let pr = option_pair(pieces[i]).unwrap();
        &&& pr.0 + seq!['='] + pr.1 == pieces[i]
        &&& !pr.0.contains('=')
        &&& !pr.1.contains('=')
    }) by {
        let t = split_on(pieces[i], '=');
        lemma_split_on_pieces(pieces[i], '=');
        if t.len() == 2 {
            assert(t.drop_last() =~= seq![t[0]]);
            assert(join_with(t, '=') == join_with(t.drop_last(), '=') + seq!['='] + t[1]);
            assert(!t[0].contains('='));
            assert(!t[1].contains('='));
        }
    }
    if forall|i: int| 0 <= i < pieces.len() ==> count_char(#[trigger] pieces[i], '=') == 1 {
        assert forall|i: int| 0 <= i < pieces.len() implies #[trigger] option_pair(pieces[i]) is Some by {
            assert(count_char(pieces[i], '=') == 1);
        }
    } else {
        let k = choose|k: int| 0 <= k < pieces.len() && count_char(#[trigger] pieces[k], '=') != 1;
        assert(option_pair(pieces[k]) is None);
    }
}

/// Reads encoder options written as `key=value,key=value`: the pairs in order,
/// to be set one after the other. A trailing comma is allowed; any piece that
/// does not hold exactly one `=` (an empty one included) makes the whole
/// result empty.
pub fn parse_opts(s: String) -> (r: Vec<(String, String)>)
    ensures
        pair_views(r@) == parsed_options(s@),
{
    let mut pieces = split(s.as_str(), ',');
    proof {
        lemma_split_on_nonempty(s@, ',');
    }
    let n = pieces.len();
    if pieces[n - 1].as_str().is_empty() {
        let ghost all = pieces@;
        pieces.pop();
        assert(views(pieces@) =~= views(all).drop_last());
    }
    let ghost ps = split_terminated(s@, ',');
    assert(views(pieces@) == ps);
    let mut out: Vec<(String, String)> = Vec::new();
    let mut i: usize = 0;
    while i < pieces.len()
        invariant
            ps == split_terminated(s@, ','),
            views(pieces@) == ps,
            i <= pieces@.len(),
            forall|j: int| 0 <= j < i ==> #[trigger] option_pair(ps[j]) is Some,
            pair_views(out@) == ps.subrange(0, i as int).map_values(|p: Seq<char>| option_pair(p).unwrap()),
        decreases pieces@.len() - i,
    {
        let tokens = split(pieces[i].as_str(), '=');
        assert(pieces@[i as int]@ == ps[i as int]);
        if tokens.len() != 2 {
            assert(option_pair(ps[i as int]) is None);
            assert(!(forall|j: int| 0 <= j < ps.len() ==> #[trigger] option_pair(ps[j]) is Some));
            let empty: Vec<(String, String)> = Vec::new();
            assert(pair_views(empty@) =~= Seq::<(Seq<char>, Seq<char>)>::empty());
            return empty;
        }
        let ghost before = pair_views(out@);
        let key = tokens[0].clone();
        let val = tokens[1].clone();
        out.push((key, val));
        assert(pair_views(out@) =~= before.push((tokens@[0]@, tokens@[1]@)));
        assert(ps.subrange(0, i + 1).map_values(|p: Seq<char>| option_pair(p).unwrap()) =~= ps.subrange(
            0,
            i as int,
        ).map_values(|p: Seq<char>| option_pair(p).unwrap()).push(option_pair(ps[i as int]).unwrap()));
        i += 1;
    }
    assert(ps.subrange(0, i as int) =~= ps);
    out
}

/// The name of a recording: `<label>-<start time>.<extension>`.
pub open spec fn video_file_name(label: Seq<char>, time_text: Seq<char>, ext: Seq<char>) -> Seq<char> {
    label + "-"@ + time_text + "."@ + ext
}

/// Where a recording is written: in the storage directory when videos are
/// kept locally, otherwise in `/tmp` until it is uploaded.
pub open spec fn video_file_location(storage: StorageConfig, label: Seq<char>, time_text: Seq<char>) -> Seq<char> {
    let dir = if storage.storage_type == FileSourceType::Local {
        storage.path@
    } else {
        "/tmp"@
    };
    dir + "/"@ + video_file_name(label, time_text, video_extension(storage.video_file_type))
}

/// Where a recording is written depends on the kind of storage alone: a
/// recording kept locally goes into the storage directory, any other into
/// `/tmp` (whatever its container format); the file name after the directory
/// is the label, a dash, the start time, a dot and the extension of its format.
pub proof fn lemma_video_file_location(storage: StorageConfig, label: Seq<char>, time_text: Seq<char>)
    ensures
        ({
            let loc = video_file_location(storage, label, time_text);
            let dir = if storage.storage_type == FileSourceType::Local {
                storage.path@
            } else {
                seq!['/', 't', 'm', 'p']
            };
            let ext = match storage.video_file_type {
                crate::config::VideoFileType::Matroska => seq!['m', 'k', 'v'],
                crate::config::VideoFileType::Mp4 => seq!['m', 'p', '4'],
                crate::config::VideoFileType::WebM => seq!['w', 'e', 'b', 'm'],
            };
            let a = dir.len() as int;
            let l = label.len() as int;
            let tl = time_text.len() as int;
            &&& loc.len() == a + 1 + l + 1 + tl + 1 + ext.len()
            &&& loc.subrange(0, a) == dir
            &&& loc[a] == '/'
            &&& loc.subrange(a + 1, a + 1 + l) == label
            &&& loc[a + 1 + l] == '-'
            &&& loc.subrange(a + 2 + l, a + 2 + l + tl) == time_text
            &&& loc[a + 2 + l + tl] == '.'
            &&& loc.subrange(loc.len() - ext.len(), loc.len() as int) == ext
        }),
{
    reveal_strlit("/tmp");
    reveal_strlit("/");
    reveal_strlit("-");
    reveal_strlit(".");
    reveal_strlit("mkv");
    reveal_strlit("mp4");
    reveal_strlit("webm");
    let loc = video_file_location(storage, label, time_text);
    let dir = if storage.storage_type == FileSourceType::Local {
        storage.path@
    } else {
        seq!['/', 't', 'm', 'p']
    };
    let ext = match storage.video_file_type {
        crate::config::VideoFileType::Matroska => seq!['m', 'k', 'v'],
        crate::config::VideoFileType::Mp4 => seq!['m', 'p', '4'],
        crate::config::VideoFileType::WebM => seq!['w', 'e', 'b', 'm'],
    };
    assert("/tmp"@ =~= seq!['/', 't', 'm', 'p']);
    assert(video_extension(storage.video_file_type) =~= ext);
    assert(loc =~= dir + seq!['/'] + label + seq!['-'] + time_text + seq!['.'] + ext);
    let a = dir.len() as int;
    let l = label.len() as int;
    let tl = time_text.len() as int;
    assert(loc.subrange(0, a) =~= dir);
    assert(loc.subrange(a + 1, a + 1 + l) =~= label);
    assert(loc.subrange(a + 2 + l, a + 2 + l + tl) =~= time_text);
    assert(loc.subrange(loc.len() - ext.len(), loc.len() as int) =~= ext);
}

/// The text of an instant `nanos` nanoseconds after the Unix epoch, in UTC,
/// in chrono's ISO 8601 format ("%+").
pub uninterp spec fn iso8601_text(nanos: i64) -> Seq<char>;

/// Formats an instant with chrono's `DateTime::format("%+")`; the result is
/// the text that `iso8601_text` names for that instant.
#[verifier::external_body]
fn format_iso8601(nanos: i64) -> (s: String)
    ensures
        s@ == iso8601_text(nanos),
{
    chrono::DateTime::from_timestamp_nanos(nanos).format("%+").to_string()
}

/// The path of a recording that started at the instant written `time_text`.
pub fn video_file_path_for(storage: &StorageConfig, label: &str, time_text: &str) -> (p: String)
    ensures
        p@ == video_file_location(*storage, label@, time_text@),
{
    proof {
        reveal_strlit("/tmp");
    }
    let mut p = match storage.storage_type {
        FileSourceType::Local => storage.path.clone(),
        _ => String::from_str("/tmp"),
    };
    p.append("/");
    p.append(label);
    p.append("-");
    p.append(time_text);
    p.append(".");
    p.append(storage.video_file_type.extension());
    assert(p@ =~= video_file_location(*storage, label@, time_text@));
    p
}

/// The path of a recording that started `start_time` nanoseconds after the
/// Unix epoch, its time written by chrono.
pub fn video_file_path(storage: &StorageConfig, label: &str, start_time: i64) -> (p: String)
    ensures
        p@ == video_file_location(*storage, label@, iso8601_text(start_time)),
{
    let time_text = format_iso8601(start_time);
    video_file_path_for(storage, label, time_text.as_str())
}

/// Milliseconds from the instant `from` to the instant `to` (both in
/// nanoseconds), rounded toward zero, as chrono's `TimeDelta::num_milliseconds` gives them.
pub open spec fn millis_between(from: i64, to: i64) -> int {
    let d = to as int - from as int;
    if d >= 0 {
        d / 1_000_000
    } else {
        -((-d) / 1_000_000)
    }
}

/// The duration of the previous frame when a frame taken at `ts` arrives:
/// the milliseconds since the previous frame, when both its time and its
/// presentation timestamp are known; otherwise none.
pub fn frame_duration_ms(previous_frame_time: Option<i64>, previous_pts: Option<i64>, ts: i64) -> (r:
    Option<i64>)
    ensures
        r == (match (previous_frame_time, previous_pts) {
            (Some(t), Some(_)) => Some(millis_between(t, ts) as i64),
            _ => None,
        }),
{
    match previous_frame_time {
        Some(t) => match previous_pts {
            Some(_) => {
                let d: i128 = ts as i128 - t as i128;
                if d >= 0 {
                    let q = (d as u128) / 1_000_000;
                    assert(q as int == d as int / 1_000_000);
                    Some(q as i64)
                } else {
                    let q = ((-d) as u128) / 1_000_000;
                    assert(q as int == (-d) as int / 1_000_000);
                    Some(-(q as i64))
                }
            },
            None => None,
        },
        None => None,
    }
}

/// Whether a finished recording is uploaded: only when the cloud is enabled
/// explicitly; otherwise the video is kept where it was written.
pub fn upload_enabled(cloud: &CloudConfig) -> (r: bool)
    ensures
        r == (cloud.enabled == Some(true)),
{
    match cloud.enabled {
        Some(b) => b,
        None => false,
    }
}

} // verus!

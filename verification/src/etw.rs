//! Process-start records of the Microsoft-Windows-Kernel-Process trace
//! provider: recognising them and reading the new process id and image name.

use vstd::prelude::*;
use crate::strings::{decode_utf16_lossy, to_lower, lowercase, utf16_lossy};

verus! {

/// Provider id of Microsoft-Windows-Kernel-Process,
/// `{22fb2cd6-0e7b-422b-a0c7-2fad1fd0e716}`, as a 128-bit number.
pub const KERNEL_PROCESS_GUID: u128 = 0x22fb2cd6_0e7b_422b_a0c7_2fad1fd0e716u128;

/// Event id of a process start.
pub const PROCESS_START_EVENT_ID: u16 = 1;

/// Whether an event is a process start of the kernel-process provider.
pub fn is_process_start(provider: u128, event_id: u16) -> (r: bool)
    ensures
        r == (provider == KERNEL_PROCESS_GUID && event_id == PROCESS_START_EVENT_ID),
{
    provider == KERNEL_PROCESS_GUID && event_id == PROCESS_START_EVENT_ID
}

/// Little-endian value of four bytes.
pub open spec fn le_u32(b0: u8, b1: u8, b2: u8, b3: u8) -> u32 {
    (b0 + 256 * b1 + 65536 * b2 + 16777216 * b3) as u32
}

/// The little-endian 16-bit units of `bytes`; a trailing odd byte is dropped.
pub open spec fn le_units(bytes: Seq<u8>) -> Seq<u16> {
    Seq::new(bytes.len() / 2, |j: int| (bytes[2 * j] + 256 * bytes[2 * j + 1]) as u16)
}

/// The units before the first zero unit (all of them when there is none).
pub open spec fn units_before_nul(units: Seq<u16>) -> Seq<u16>
    decreases units.len(),
{
    if units.len() == 0 {
        units
    } else if units[0] == 0 {
        Seq::empty()
    } else {
        seq![units[0]] + units_before_nul(units.drop_first())
    }
}

/// A process-start payload: the new process id, and the UTF-16 units of its
/// image path when the payload carries one.
#[derive(Debug, PartialEq, Eq)]
pub struct ProcessStart {
    /// Id of the new process.
    pub pid: u32,
    /// Image path units up to the terminating zero; `None` when the payload
    /// ends after the parent process id.
    pub image: Option<Vec<u16>>,
}

/// Reading of a process-start payload: bytes 0..4 hold the new process id,
/// 4..8 the parent id, and from 8 on a zero-terminated UTF-16LE image path.
/// Payloads shorter than 4 bytes are ignored.
pub open spec fn parse_process_start_spec(data: Seq<u8>) -> Option<(u32, Option<Seq<u16>>)> {
    if data.len() < 4 {
        None
    } else {
        let pid = le_u32(data[0], data[1], data[2], data[3]);
        let image = if data.len() > 8 {
            Some(units_before_nul(le_units(data.skip(8))))
        } else {
            None
        };
        Some((pid, image))
    }
}

proof fn lemma_before_nul_prefix(units: Seq<u16>, j: int)
    requires
        0 <= j <= units.len(),
        forall|k: int| 0 <= k < j ==> units[k] != 0,
    ensures
        units_before_nul(units) == units.take(j) + units_before_nul(units.skip(j)),
    decreases j,
{
    if j > 0 {
        lemma_before_nul_prefix(units.drop_first(), j - 1);
        assert(units.drop_first().take(j - 1) =~= units.take(j).drop_first());
        assert(units.drop_first().skip(j - 1) =~= units.skip(j));
        assert(seq![units[0]] + units.take(j).drop_first() =~= units.take(j));
        assert(seq![units[0]] + (units.take(j).drop_first() + units_before_nul(units.skip(j))) =~= units.take(j) + units_before_nul(units.skip(j)));
    } else {
        assert(units.skip(0) =~= units);
        assert(units.take(0) + units_before_nul(units) =~= units_before_nul(units));
    }
}

/// Reads a process-start payload.
pub fn parse_process_start(data: &[u8]) -> (r: Option<ProcessStart>)
    ensures
        r is None <==> parse_process_start_spec(data@) is None,
        r matches Some(p) ==> ({
            let (pid, image) = parse_process_start_spec(data@)->0;
            &&& p.pid == pid
            &&& (p.image matches Some(u) ==> image == Some(u@))
            &&& (p.image is None ==> image is None)
        }),
{
    let len = data.len();
    if len < 4 {
        return None;
    }
    let pid: u32 = (data[0] as u32) + 256 * (data[1] as u32) + 65536 * (data[2] as u32) + 16777216 * (data[3] as u32);
    if len <= 8 {
        return Some(ProcessStart { pid, image: None });
    }
    let ghost units = le_units(data@.skip(8));
    let count = (len - 8) / 2;
    let mut out: Vec<u16> = Vec::new();
    let mut j: usize = 0;
    while j < count
        invariant
            count == units.len(),
            len == data@.len(),
            len > 8,
            j <= count,
            out@ == units.take(j as int),
            forall|k: int| 0 <= k < j ==> units[k] != 0,
            units == le_units(data@.skip(8)),
        ensures
            j <= count,
            out@ == units.take(j as int),
            forall|k: int| 0 <= k < j ==> units[k] != 0,
            j < count ==> units[j as int] == 0,
        decreases count - j,
    {
        let u: u16 = ((data[8 + 2 * j] as u32) + 256 * (data[9 + 2 * j] as u32)) as u16;
        assert(u == units[j as int]);
        if u == 0 {
            break;
        }
        out.push(u);
        j += 1;
        assert(out@ =~= units.take(j as int));
    }
    proof {
        lemma_before_nul_prefix(units, j as int);
        if j < count {
            assert(units.skip(j as int)[0] == 0);
        } else {
            assert(units.skip(j as int) =~= Seq::<u16>::empty());
        }
        assert(units.take(j as int) + units_before_nul(units.skip(j as int)) =~= out@);
    }
    Some(ProcessStart { pid, image: Some(out) })
}

/// The units after the last backslash (0x5C), i.e. the last `\`-separated
/// segment of a path.
pub open spec fn after_last_backslash(units: Seq<u16>) -> Seq<u16>
    decreases units.len(),
{
    if units.len() == 0 {
        units
    } else if units.last() == 0x5Cu16 {
        Seq::empty()
    } else {
        after_last_backslash(units.drop_last()).push(units.last())
    }
}

/// Lower-cased file name of an image path given as UTF-16 units.
pub open spec fn image_file_name_spec(units: Seq<u16>) -> Seq<char> {
    lowercase(utf16_lossy(after_last_backslash(units)))
}

/// The lower-cased file name of an image path, NT (`\Device\...`) or Win32
/// form: the text after its last backslash. The split is done on code units;
/// a backslash unit never occurs inside a surrogate pair, so this is the last
/// segment of the decoded path.
pub fn image_file_name(units: &Vec<u16>) -> (name: String)
    ensures
        name@ == image_file_name_spec(units@),
{
    let mut seg: Vec<u16> = Vec::new();
    let mut j: usize = 0;
    while j < units.len()
        invariant
            j <= units.len(),
            seg@ == after_last_backslash(units@.take(j as int)),
        decreases units.len() - j,
    {
        let u = units[j];
        assert(units@.take(j + 1).drop_last() =~= units@.take(j as int));
        if u == 0x5C {
            seg = Vec::new();
        } else {
            seg.push(u);
        }
        j += 1;
    }
    assert(units@.take(units.len() as int) =~= units@);
    let decoded = decode_utf16_lossy(seg.as_slice());
    to_lower(decoded.as_str())
}

/// What a process-start payload gives: payloads of at least four bytes
/// always give the little-endian process id of their first four bytes; past
/// eight bytes the image holds the leading 16-bit units of the path, none of
/// them zero, and stops either at a zero unit or at the end of the payload.
pub proof fn lemma_process_start_fields(data: Seq<u8>)
    ensures
        data.len() < 4 <==> parse_process_start_spec(data) is None,
        parse_process_start_spec(data) matches Some((pid, img)) ==> {
            &&& pid == (data[0] as int + 256 * data[1] as int + 65536 * data[2] as int + 16777216 * data[3] as int)
            &&& (data.len() <= 8 <==> img is None)
            &&& (img matches Some(img) ==> {
                let units = le_units(data.skip(8));
                &&& img.len() <= units.len()
                &&& forall|j: int| 0 <= j < img.len() ==> #[trigger] img[j] == units[j] && img[j] != 0
                &&& img.len() == units.len() || units[img.len() as int] == 0
            })
        },
{
    if data.len() > 8 {
        lemma_before_nul_shape(le_units(data.skip(8)));
    }
    if data.len() >= 4 {
        assert(le_u32(data[0], data[1], data[2], data[3]) as int
            == data[0] as int + 256 * data[1] as int + 65536 * data[2] as int + 16777216 * data[3] as int);
    }
}

proof fn lemma_before_nul_shape(units: Seq<u16>)
    ensures
        units_before_nul(units).len() <= units.len(),
        forall|j: int| 0 <= j < units_before_nul(units).len()
            ==> #[trigger] units_before_nul(units)[j] == units[j] && units_before_nul(units)[j] != 0,
        units_before_nul(units).len() == units.len() || units[units_before_nul(units).len() as int] == 0,
    decreases units.len(),
{
    if units.len() > 0 && units[0] != 0 {
        let rest = units.drop_first();
        lemma_before_nul_shape(rest);
        let b = units_before_nul(units);
        assert forall|j: int| 0 <= j < b.len() implies #[trigger] b[j] == units[j] && b[j] != 0 by {
            if j > 0 {
                assert(b[j] == units_before_nul(rest)[j - 1]);
            }
        }
    }
}

/// The file name of an image path is a trailing part of the path that holds
/// no backslash and that follows either the start or a backslash.
pub proof fn lemma_file_name_segment(units: Seq<u16>)
    ensures
        after_last_backslash(units).len() <= units.len(),
        after_last_backslash(units) == units.skip(units.len() - after_last_backslash(units).len()),
        forall|j: int| 0 <= j < after_last_backslash(units).len() ==> #[trigger] after_last_backslash(units)[j] != 0x5Cu16,
        after_last_backslash(units).len() == units.len()
            || units[units.len() - after_last_backslash(units).len() - 1] == 0x5Cu16,
    decreases units.len(),
{
    if units.len() > 0 {
        lemma_file_name_segment(units.drop_last());
        let r = after_last_backslash(units.drop_last());
        if units.last() != 0x5Cu16 {
            let n = units.len();
            assert(r.push(units.last()) =~= units.skip(n - r.len() - 1));
        } else {
            assert(units.skip(units.len() as int) =~= Seq::<u16>::empty());
        }
    }
}

} // verus!

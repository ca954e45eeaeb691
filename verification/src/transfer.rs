//! File transfer over TCP: a one-line JSON metadata header followed by the raw file
//! bytes, written and read in chunks of at most `CHUNK_SIZE` bytes.

use vstd::prelude::*;
use crate::text::{decimal, decimal_string, digit_char};

verus! {

/// Port used by the receive server when the caller asks for port 0.
pub const TRANSFER_PORT: u16 = 9096;

/// Largest piece of file data written or read at once (64 KiB).
pub const CHUNK_SIZE: usize = 65536;

/// Metadata sent ahead of the file bytes.
pub struct FileMetadata {
    pub filename: String,
    pub filesize: u64,
}

// ---------------------------------------------------------------------------
// JSON rendering of the metadata header
// ---------------------------------------------------------------------------

/// Lower-case hexadecimal digit for `d < 16`.
pub open spec fn hex_digit(d: nat) -> char {
    if d < 10 {
        digit_char(d)
    } else {
        (87 + d) as char
    }
}

/// How one character appears inside a JSON string literal.
pub open spec fn json_escape(c: char) -> Seq<char> {
    if c == '"' {
        seq!['\\', '"']
    } else if c == '\\' {
        seq!['\\', '\\']
    } else if c == '\u{8}' {
        seq!['\\', 'b']
    } else if c == '\t' {
        seq!['\\', 't']
    } else if c == '\n' {
        seq!['\\', 'n']
    } else if c == '\u{c}' {
        seq!['\\', 'f']
    } else if c == '\r' {
        seq!['\\', 'r']
    } else if (c as u32) < 32 {
        seq!['\\', 'u', '0', '0', hex_digit((c as u32 as nat) / 16), hex_digit((c as u32 as nat) % 16)]
    } else {
        seq![c]
    }
}

/// The escaped contents of a JSON string literal for `s`.
pub open spec fn json_escaped(s: Seq<char>) -> Seq<char>
    decreases s.len(),
{
    if s.len() == 0 {
        Seq::empty()
    } else {
        json_escaped(s.drop_last()) + json_escape(s.last())
    }
}

/// The JSON string literal for `s`, quotes included.
pub open spec fn json_string(s: Seq<char>) -> Seq<char> {
    seq!['"'] + json_escaped(s) + seq!['"']
}

/// Renders `s` as a JSON string literal with `serde_json::to_string` on a `str`.
/// The contract restates serde_json's `format_escaped_str`: quotes around the text,
/// `"` and `\` escaped with a backslash, the controls 0x08, 0x09, 0x0A, 0x0C and 0x0D
/// as `\b \t \n \f \r`, every other control below 0x20 as `\u00` and two lower-case
/// hex digits, all other characters unchanged. Serialising into a `Vec` cannot fail,
/// so the result is always `Ok`.
#[verifier::external_body]
fn json_quote(s: &str) -> (r: Result<String, String>)
    ensures
        r is Ok,
        r matches Ok(q) ==> q@ == json_string(s@),
{
    match serde_json::to_string(s) {
        Ok(q) => Ok(q),
        Err(e) => Err(e.to_string()),
    }
}

/// The metadata header line: the compact JSON object `{"filename":..,"filesize":..}`
/// followed by a newline.
pub open spec fn metadata_line_text(filename: Seq<char>, filesize: nat) -> Seq<char> {
    "{\"filename\":"@ + json_string(filename) + ",\"filesize\":"@ + decimal(filesize) + "}\n"@
}

/// Whether `s` holds no newline.
pub open spec fn no_newline(s: Seq<char>) -> bool {
    forall|i: int| 0 <= i < s.len() ==> s[i] != '\n'
}

proof fn lemma_concat_no_newline(a: Seq<char>, b: Seq<char>)
    requires
        no_newline(a),
        no_newline(b),
    ensures
        no_newline(a + b),
{
    assert forall|i: int| 0 <= i < (a + b).len() implies (a + b)[i] != '\n' by {
        if i < a.len() {
            assert((a + b)[i] == a[i]);
        } else {
            assert((a + b)[i] == b[i - a.len()]);
        }
    }
}

proof fn lemma_escaped_no_newline(s: Seq<char>)
    ensures
        no_newline(json_escaped(s)),
    decreases s.len(),
{
    if s.len() > 0 {
        lemma_escaped_no_newline(s.drop_last());
        let c = s.last();
        let e = json_escape(c);
        if (c as u32) < 32 && c != '\u{8}' && c != '\t' && c != '\n' && c != '\u{c}' && c != '\r' {
            let v = c as u32 as nat;
            assert(v / 16 < 2 && v % 16 < 16);
        }
        assert(no_newline(e));
        lemma_concat_no_newline(json_escaped(s.drop_last()), e);
    }
}

proof fn lemma_decimal_no_newline(n: nat)
    ensures
        no_newline(decimal(n)),
    decreases n,
{
    if n >= 10 {
        lemma_decimal_no_newline(n / 10);
        lemma_concat_no_newline(decimal(n / 10), seq![digit_char(n % 10)]);
        assert(decimal(n) == decimal(n / 10) + seq![digit_char(n % 10)]);
    }
}

/// The metadata header is exactly one line holding one JSON object: it starts with
/// `{`, ends with `}` and a newline, and holds no other newline, so a receiver that
/// reads up to the first newline and trims it gets the whole object and nothing of
/// the file bytes that follow.
pub proof fn law_metadata_is_one_line(filename: Seq<char>, filesize: nat)
    ensures
        ({
            let t = metadata_line_text(filename, filesize);
            &&& t.len() >= 2
            &&& t[0] == '{'
            &&& t[t.len() - 2] == '}'
            &&& t[t.len() - 1] == '\n'
            &&& no_newline(t.subrange(0, t.len() - 1))
        }),
{
    reveal_strlit("{\"filename\":");
    reveal_strlit(",\"filesize\":");
    reveal_strlit("}\n");
    let l1 = "{\"filename\":"@;
    let l2 = ",\"filesize\":"@;
    let q = json_string(filename);
    let d = decimal(filesize);
    lemma_escaped_no_newline(filename);
    lemma_concat_no_newline(seq!['"'], json_escaped(filename));
    lemma_concat_no_newline(seq!['"'] + json_escaped(filename), seq!['"']);
    lemma_decimal_no_newline(filesize);
    assert(no_newline(l1));
    assert(no_newline(l2));
    lemma_concat_no_newline(l1, q);
    lemma_concat_no_newline(l1 + q, l2);
    lemma_concat_no_newline(l1 + q + l2, d);
    lemma_concat_no_newline(l1 + q + l2 + d, seq!['}']);
    let body = l1 + q + l2 + d + seq!['}'];
    let t = metadata_line_text(filename, filesize);
    assert(t =~= body + seq!['\n']);
    assert(t.subrange(0, t.len() - 1) =~= body);
}

impl FileMetadata {
    /// The header line a sender writes before the file bytes.
    pub fn metadata_line(&self) -> (line: String)
        ensures
            line@ == metadata_line_text(self.filename@, self.filesize as nat),
    {
        let quoted = match json_quote(self.filename.as_str()) {
            Ok(q) => q,
            Err(_) => String::new(),
        };
        let mut line = String::from_str("{\"filename\":");
        line.append(quoted.as_str());
        line.append(",\"filesize\":");
        let size = decimal_string(self.filesize);
        line.append(size.as_str());
        line.append("}\n");
        line
    }
}

// ---------------------------------------------------------------------------
// Sender side
// ---------------------------------------------------------------------------

/// The final component of `path` as `std::path::Path::file_name` computes it for the
/// compilation target, decoded lossily into text.
pub uninterp spec fn path_file_name(path: Seq<char>) -> Option<Seq<char>>;

/// Calls `std::path::Path::file_name` on `path`. The contract only ties the result
/// to the name `path_file_name`; which component that is is left to std.
#[verifier::external_body]
fn file_name_of(path: &str) -> (r: Option<String>)
    ensures
        match r {
            Some(n) => path_file_name(path@) == Some(n@),
            None => path_file_name(path@) is None,
        },
{
    match std::path::Path::new(path).file_name() {
        Some(n) => Some(n.to_string_lossy().into_owned()),
        None => None,
    }
}

/// The name announced for a file: its last path component, or `unknown` when the
/// path has none.
pub open spec fn announced_name(path: Seq<char>) -> Seq<char> {
    match path_file_name(path) {
        Some(n) => n,
        None => "unknown"@,
    }
}

/// The file name sent in the metadata for the file at `path`.
pub fn file_name_for(path: &str) -> (name: String)
    ensures
        name@ == announced_name(path@),
        match path_file_name(path@) {
            Some(n) => name@ == n,
            None => name@ == "unknown"@,
        },
{
    name_or_unknown(file_name_of(path))
}

/// The announced name once the path's last component is known: that component, or
/// `unknown` when there is none.
pub fn name_or_unknown(component: Option<String>) -> (name: String)
    ensures
        name@ == match component {
            Some(n) => n@,
            None => "unknown"@,
        },
{
    match component {
        Some(n) => n,
        None => String::from_str("unknown"),
    }
}

/// The metadata a sender announces for the file at `path` holding `filesize` bytes.
pub fn metadata_for(path: &str, filesize: u64) -> (meta: FileMetadata)
    ensures
        meta.filename@ == announced_name(path@),
        match path_file_name(path@) {
            Some(n) => meta.filename@ == n,
            None => meta.filename@ == "unknown"@,
        },
        meta.filesize == filesize,
{
    FileMetadata { filename: file_name_for(path), filesize }
}

/// The name a sender announces is the path's last component exactly as std gives
/// it, spaces, dots and all; `unknown` stands only for a path without one.
pub proof fn law_announced_name_is_last_component(path: Seq<char>)
    ensures
        path_file_name(path) matches Some(n) ==> announced_name(path) == n,
        path_file_name(path) is None ==> announced_name(path) == "unknown"@,
{
}

/// Number of chunks a buffer of `total` bytes is split into.
pub open spec fn chunk_count(total: nat) -> nat {
    if total % (CHUNK_SIZE as nat) == 0 {
        total / (CHUNK_SIZE as nat)
    } else {
        total / (CHUNK_SIZE as nat) + 1
    }
}

/// The byte range of chunk `i` of a buffer of `total` bytes.
pub open spec fn chunk_range(total: nat, i: nat) -> (nat, nat) {
    let start = i * (CHUNK_SIZE as nat);
    let end = if start + (CHUNK_SIZE as nat) <= total { start + (CHUNK_SIZE as nat) } else { total };
    (start, end)
}

/// The byte ranges written for a file of `total` bytes, in order, as
/// `slice::chunks(CHUNK_SIZE)` splits it.
pub fn chunk_ranges(total: usize) -> (ranges: Vec<(usize, usize)>)
    ensures
        ranges@.len() == chunk_count(total as nat),
        forall|i: int|
            0 <= i < ranges@.len() ==> (#[trigger] ranges@[i]).0 as nat == chunk_range(
                total as nat,
                i as nat,
            ).0 && ranges@[i].1 as nat == chunk_range(total as nat, i as nat).1,
{
    let mut ranges: Vec<(usize, usize)> = Vec::new();
    let mut start: usize = 0;
    while start < total
        invariant
            start <= total,
            start < total ==> start as nat == ranges@.len() * (CHUNK_SIZE as nat),
            ranges@.len() == 0 ==> start == 0,
            ranges@.len() > 0 ==> ranges@[ranges@.len() - 1].1 == start,
            forall|i: int| 0 <= i < ranges@.len() ==> (#[trigger] ranges@[i]).0 < total,
            forall|i: int|
                0 <= i < ranges@.len() ==> (#[trigger] ranges@[i]).0 as nat == chunk_range(
                    total as nat,
                    i as nat,
                ).0 && ranges@[i].1 as nat == chunk_range(total as nat, i as nat).1,
        decreases total - start,
    {
        let end = if total - start >= CHUNK_SIZE {
            start + CHUNK_SIZE
        } else {
            total
        };
        proof {
            let k = ranges@.len();
            assert(chunk_range(total as nat, k as nat).0 == start);
        }
        ranges.push((start, end));
        start = end;
    }
    proof {
        let n = ranges@.len();
        let c = CHUNK_SIZE as nat;
        if n > 0 {
            assert(ranges@[n - 1].1 == total);
        }
        assert(chunk_count(total as nat) == n) by {
            if n == 0 {
                assert(total == 0);
            } else {
                let last = chunk_range(total as nat, (n - 1) as nat);
                assert(last.0 == (n - 1) * c);
                assert(last.0 < total);
                assert(total <= n * c) by {
                    assert(last.1 == total);
                }
                assert((n - 1) * c < total <= n * c);
                lemma_chunk_count(total as nat, n);
            }
        }
    }
    ranges
}

proof fn lemma_chunk_count(total: nat, n: nat)
    requires
        n > 0,
        (n - 1) * (CHUNK_SIZE as nat) < total <= n * (CHUNK_SIZE as nat),
    ensures
        chunk_count(total) == n,
{
    let c = CHUNK_SIZE as nat;
    let q = total / c;
    let r = total % c;
    assert(total == q * c + r && r < c) by (nonlinear_arith)
        requires
            c > 0,
            q == total / c,
            r == total % c,
    ;
    if r == 0 {
        assert(q == n) by (nonlinear_arith)
            requires
                (n - 1) * c < q * c,
                q * c <= n * c,
                c > 0,
        ;
    } else {
        assert(q + 1 == n) by (nonlinear_arith)
            requires
                (n - 1) * c < q * c + r,
                q * c + r <= n * c,
                0 < r < c,
        ;
    }
}

proof fn lemma_chunk_bounds(total: nat)
    requires
        total > 0,
    ensures
        chunk_count(total) > 0,
        ((chunk_count(total) - 1) as nat) * (CHUNK_SIZE as nat) < total,
        total <= chunk_count(total) * (CHUNK_SIZE as nat),
{
    let c = CHUNK_SIZE as nat;
    let q = total / c;
    let r = total % c;
    assert(total == q * c + r && r < c) by (nonlinear_arith)
        requires
            c > 0,
            q == total / c,
            r == total % c,
    ;
    if r == 0 {
        assert(q > 0) by (nonlinear_arith)
            requires
                total == q * c,
                total > 0,
        ;
        assert((q - 1) * c < total) by (nonlinear_arith)
            requires
                total == q * c,
                c > 0,
                q > 0,
        ;
    } else {
        assert((q + 1) * c == q * c + c) by (nonlinear_arith);
    }
}

proof fn lemma_start_below_total(total: nat, i: nat)
    requires
        i < chunk_count(total),
    ensures
        i * (CHUNK_SIZE as nat) < total,
{
    if total == 0 {
        assert(chunk_count(total) == 0);
    } else {
        lemma_chunk_bounds(total);
        let n = chunk_count(total);
        assert(i * (CHUNK_SIZE as nat) <= ((n - 1) as nat) * (CHUNK_SIZE as nat)) by (nonlinear_arith)
            requires
                i <= n - 1,
        ;
    }
}

/// The chunks of a buffer tile it: the first starts at 0, each starts where the
/// previous one ended, the last ends at the end of the buffer, and each holds between
/// 1 and `CHUNK_SIZE` bytes.
pub proof fn law_chunks_tile(total: nat)
    ensures
        chunk_count(total) > 0 ==> chunk_range(total, 0).0 == 0 && chunk_range(
            total,
            (chunk_count(total) - 1) as nat,
        ).1 == total,
        chunk_count(total) == 0 <==> total == 0,
        forall|i: nat|
            i + 1 < chunk_count(total) ==> #[trigger] chunk_range(total, i).1 == chunk_range(
                total,
                i + 1,
            ).0,
        forall|i: nat|
            i < chunk_count(total) ==> 0 < #[trigger] chunk_range(total, i).1 - chunk_range(total, i).0
                <= CHUNK_SIZE as nat,
{
    let c = CHUNK_SIZE as nat;
    if total > 0 {
        lemma_chunk_bounds(total);
        let n = chunk_count(total);
        assert(((n - 1) as nat) * c + c == n * c) by (nonlinear_arith)
            requires
                n > 0,
        ;
    }
    assert forall|i: nat| i + 1 < chunk_count(total) implies #[trigger] chunk_range(total, i).1
        == chunk_range(total, i + 1).0 by {
        lemma_start_below_total(total, i + 1);
        assert((i + 1) * c == i * c + c) by (nonlinear_arith);
    }
    assert forall|i: nat| i < chunk_count(total) implies 0 < #[trigger] chunk_range(total, i).1
        - chunk_range(total, i).0 <= CHUNK_SIZE as nat by {
        lemma_start_below_total(total, i);
    }
}

/// A receiver reads a file in exactly the pieces the sender wrote it: once it holds
/// the first `k` chunks of a `total`-byte file, its next read is chunk `k`.
pub proof fn law_receiver_reads_sender_chunks(total: nat, k: nat)
    requires
        k < chunk_count(total),
    ensures
        read_len(total, chunk_range(total, k).0) == chunk_range(total, k).1 - chunk_range(total, k).0,
{
    lemma_start_below_total(total, k);
}

/// What a receiver expecting `data.len()` bytes holds after accepting, in order, the
/// first `k` chunks a sender wrote of `data`.
pub open spec fn received_after(data: Seq<u8>, k: nat) -> Seq<u8>
    decreases k,
{
    if k == 0 {
        Seq::empty()
    } else {
        let r = chunk_range(data.len(), (k - 1) as nat);
        received_after(data, (k - 1) as nat) + data.subrange(r.0 as int, r.1 as int)
    }
}

proof fn lemma_received_prefix(data: Seq<u8>, k: nat)
    requires
        0 < k <= chunk_count(data.len()),
    ensures
        received_after(data, k) == data.subrange(0, chunk_range(data.len(), (k - 1) as nat).1 as int),
        chunk_range(data.len(), (k - 1) as nat).1 <= data.len(),
    decreases k,
{
    let total = data.len();
    law_chunks_tile(total);
    let r = chunk_range(total, (k - 1) as nat);
    assert(0 < r.1 - r.0);
    if k == 1 {
        assert(r.0 == 0);
        assert(received_after(data, 0) + data.subrange(0, r.1 as int) =~= data.subrange(0, r.1 as int));
    } else {
        lemma_received_prefix(data, (k - 1) as nat);
        let p = chunk_range(total, (k - 2) as nat);
        assert(p.1 == r.0);
        assert(data.subrange(0, p.1 as int) + data.subrange(r.0 as int, r.1 as int) =~= data.subrange(
            0,
            r.1 as int,
        ));
    }
}

/// A file goes through the transfer unchanged: a receiver expecting `data.len()`
/// bytes that accepts, in order, the chunks the sender writes of `data` is asked each
/// time for exactly the next chunk, never for more than remains, and ends complete
/// holding exactly `data`.
pub proof fn law_transfer_roundtrip(data: Seq<u8>)
    ensures
        forall|k: nat|
            k < chunk_count(data.len()) ==> {
                let r = #[trigger] chunk_range(data.len(), k);
                &&& received_after(data, k) == data.subrange(0, r.0 as int)
                &&& read_len(data.len(), received_after(data, k).len()) == r.1 - r.0
                &&& received_after(data, k).len() + (r.1 - r.0) <= data.len()
            },
        received_after(data, chunk_count(data.len())) == data,
        received_after(data, chunk_count(data.len())).len() == data.len(),
{
    let total = data.len();
    let n = chunk_count(total);
    law_chunks_tile(total);
    assert forall|k: nat| k < chunk_count(data.len()) implies {
        let r = #[trigger] chunk_range(data.len(), k);
        &&& received_after(data, k) == data.subrange(0, r.0 as int)
        &&& read_len(data.len(), received_after(data, k).len()) == r.1 - r.0
        &&& received_after(data, k).len() + (r.1 - r.0) <= data.len()
    } by {
        let r = chunk_range(total, k);
        if k == 0 {
            assert(received_after(data, 0) =~= data.subrange(0, 0));
        } else {
            lemma_received_prefix(data, k);
            assert(chunk_range(total, (k - 1) as nat).1 == r.0);
        }
        law_receiver_reads_sender_chunks(total, k);
        assert(r.1 <= total);
    }
    if n == 0 {
        assert(received_after(data, 0) =~= data);
    } else {
        lemma_received_prefix(data, n);
        assert(data.subrange(0, total as int) =~= data);
    }
}

/// The closing message of a successful send.
pub open spec fn sent_message_text(filename: Seq<char>, filesize: nat) -> Seq<char> {
    "File '"@ + filename + "' sent successfully ("@ + decimal(filesize) + " bytes)"@
}

impl FileMetadata {
    /// The reply given once the whole file has been written.
    pub fn sent_message(&self) -> (m: String)
        ensures
            m@ == sent_message_text(self.filename@, self.filesize as nat),
    {
        let mut m = String::from_str("File '");
        m.append(self.filename.as_str());
        m.append("' sent successfully (");
        let size = decimal_string(self.filesize);
        m.append(size.as_str());
        m.append(" bytes)");
        m
    }
}

// ---------------------------------------------------------------------------
// Receiver side
// ---------------------------------------------------------------------------

/// The size of the next read of a receiver expecting `expected` bytes that has
/// `received` of them: what remains, at most one chunk.
pub open spec fn read_len(expected: nat, received: nat) -> nat {
    let remaining = (expected - received) as nat;
    if remaining < CHUNK_SIZE as nat {
        remaining
    } else {
        CHUNK_SIZE as nat
    }
}

/// A file being received: the announced size and the bytes read so far.
pub struct IncomingFile {
    expected: usize,
    data: Vec<u8>,
}

impl IncomingFile {
    /// Well-formedness: never more bytes than announced.
    pub closed spec fn wf(&self) -> bool {
        self.data@.len() <= self.expected
    }

    pub closed spec fn expected_len(&self) -> nat {
        self.expected as nat
    }

    pub closed spec fn received(&self) -> Seq<u8> {
        self.data@
    }

    /// Bytes still to be read.
    pub open spec fn remaining(&self) -> nat {
        (self.expected_len() - self.received().len()) as nat
    }

    /// Starts receiving the file announced by `meta` (its size taken as a `usize`).
    pub fn new(meta: &FileMetadata) -> (f: IncomingFile)
        ensures
            f.expected_len() == (meta.filesize as usize) as nat,
            f.received() == Seq::<u8>::empty(),
            f.wf(),
    {
        IncomingFile { expected: meta.filesize as usize, data: Vec::new() }
    }

    /// How many bytes the next read must deliver: the remaining bytes, at most one chunk.
    pub fn next_read_len(&self) -> (n: usize)
        requires
            self.wf(),
        ensures
            n as nat == read_len(self.expected_len(), self.received().len()),
    {
        let remaining = self.expected - self.data.len();
        if remaining < CHUNK_SIZE {
            remaining
        } else {
            CHUNK_SIZE
        }
    }

    /// Whether every announced byte has arrived.
    pub fn is_complete(&self) -> (b: bool)
        ensures
            b == (self.received().len() == self.expected_len()),
    {
        self.data.len() == self.expected
    }

    /// Appends a chunk just read from the stream.
    pub fn accept(&mut self, chunk: &[u8])
        requires
            old(self).wf(),
            chunk@.len() <= old(self).remaining(),
        ensures
            final(self).wf(),
            final(self).expected_len() == old(self).expected_len(),
            final(self).received() == old(self).received() + chunk@,
    {
        let mut i: usize = 0;
        let ghost start = self.data@;
        while i < chunk.len()
            invariant
                i <= chunk@.len(),
                self.data@ == start + chunk@.subrange(0, i as int),
                self.expected == old(self).expected,
                start.len() + chunk@.len() <= self.expected,
            decreases chunk@.len() - i,
        {
            self.data.push(chunk[i]);
            i = i + 1;
            assert(chunk@.subrange(0, i as int) == chunk@.subrange(0, i - 1).push(chunk@[i - 1]));
        }
        assert(chunk@.subrange(0, chunk@.len() as int) == chunk@);
    }

    /// The received bytes.
    pub fn into_data(self) -> (data: Vec<u8>)
        ensures
            data@ == self.received(),
    {
        self.data
    }
}

/// The directory incoming files are saved in: the requested one, or when none is
/// given the download directory, else the home directory, else `.`.
pub open spec fn save_dir_choice(
    requested: Seq<char>,
    download: Option<Seq<char>>,
    home: Option<Seq<char>>,
) -> Seq<char> {
    if requested.len() != 0 {
        requested
    } else {
        match download {
            Some(d) => d,
            None => match home {
                Some(h) => h,
                None => "."@,
            },
        }
    }
}

/// Chooses the save directory (see `save_dir_choice`).
pub fn resolve_save_dir(requested: String, download: Option<String>, home: Option<String>) -> (dir:
    String)
    ensures
        dir@ == save_dir_choice(
            requested@,
            match download {
                Some(d) => Some(d@),
                None => None,
            },
            match home {
                Some(h) => Some(h@),
                None => None,
            },
        ),
{
    if !requested.as_str().is_empty() {
        requested
    } else {
        match download {
            Some(d) => d,
            None => match home {
                Some(h) => h,
                None => String::from_str("."),
            },
        }
    }
}

/// `dir` joined with `name` as `std::path::Path::join` computes it for the
/// compilation target, rendered as text.
pub uninterp spec fn path_joined(dir: Seq<char>, name: Seq<char>) -> Seq<char>;

/// Calls `std::path::Path::join`. The contract only ties the result to the name
/// `path_joined`.
#[verifier::external_body]
fn join_path(dir: &str, name: &str) -> (p: String)
    ensures
        p@ == path_joined(dir@, name@),
{
    std::path::Path::new(dir).join(name).to_string_lossy().into_owned()
}

/// Where an incoming file announced as `meta` is written inside `save_dir`.
pub fn incoming_file_path(save_dir: &str, meta: &FileMetadata) -> (p: String)
    ensures
        p@ == path_joined(save_dir@, meta.filename@),
{
    join_path(save_dir, meta.filename.as_str())
}

// ---------------------------------------------------------------------------
// Receive server control
// ---------------------------------------------------------------------------

/// The port the receive server listens on for a requested `port` (0 picks the default).
pub open spec fn listen_port(port: u16) -> u16 {
    if port == 0 {
        TRANSFER_PORT
    } else {
        port
    }
}

/// Reply to a start request when the server was already running.
pub open spec fn already_running_text() -> Seq<char> {
    "Receive server already running"@
}

/// Reply to a start request that launched the server.
pub open spec fn receive_started_text(port: u16) -> Seq<char> {
    "File receive server started on port "@ + decimal(port as nat)
}

/// What the receive server is asked to handle.
pub enum ReceiveEvent {
    /// A caller asked to start the server on `port` saving into `save_dir`; the two
    /// directories are the platform's download and home directories, if known.
    StartRequested {
        port: u16,
        save_dir: String,
        download_dir: Option<String>,
        home_dir: Option<String>,
    },
    /// Binding the listening socket failed.
    ListenerFailed,
}

/// What the caller must do next.
pub enum ReceiveAction {
    /// Answer the start request with this text; nothing else to do.
    Reply(String),
    /// Bind `port`, accept connections saving into `save_dir`, and answer with `reply`.
    Listen { port: u16, save_dir: String, reply: String },
    /// Nothing to do.
    Idle,
}

/// Whether the file receive server is running.
pub struct ReceiveServer {
    running: bool,
}

impl ReceiveServer {
    pub closed spec fn is_running_spec(&self) -> bool {
        self.running
    }

    /// A server that has not been started.
    pub fn new() -> (s: ReceiveServer)
        ensures
            !s.is_running_spec(),
    {
        ReceiveServer { running: false }
    }

    /// Whether connections should still be accepted.
    pub fn is_running(&self) -> (b: bool)
        ensures
            b == self.is_running_spec(),
    {
        self.running
    }

    /// Advances the server on `event` and says what to do.
    pub fn step(&mut self, event: ReceiveEvent) -> (action: ReceiveAction)
        ensures
            match event {
                ReceiveEvent::StartRequested { port, save_dir, download_dir, home_dir } => {
                    if old(self).is_running_spec() {
                        &&& final(self).is_running_spec()
                        &&& action matches ReceiveAction::Reply(m) && m@ == already_running_text()
                    } else {
                        &&& final(self).is_running_spec()
                        &&& action matches ReceiveAction::Listen { port: p, save_dir: d, reply: r }
                        &&& p == listen_port(port)
                        &&& d@ == save_dir_choice(
                            save_dir@,
                            match download_dir {
                                Some(x) => Some(x@),
                                None => None,
                            },
                            match home_dir {
                                Some(x) => Some(x@),
                                None => None,
                            },
                        )
                        &&& r@ == receive_started_text(listen_port(port))
                    }
                },
                ReceiveEvent::ListenerFailed => {
                    &&& !final(self).is_running_spec()
                    &&& action is Idle
                },
            },
    {
        match event {
            ReceiveEvent::StartRequested { port, save_dir, download_dir, home_dir } => {
                if self.running {
                    ReceiveAction::Reply(String::from_str("Receive server already running"))
                } else {
                    let actual = if port == 0 {
                        TRANSFER_PORT
                    } else {
                        port
                    };
                    let dir = resolve_save_dir(save_dir, download_dir, home_dir);
                    self.running = true;
                    let mut reply = String::from_str("File receive server started on port ");
                    let digits = decimal_string(actual as u64);
                    reply.append(digits.as_str());
                    ReceiveAction::Listen { port: actual, save_dir: dir, reply }
                }
            },
            ReceiveEvent::ListenerFailed => {
                self.running = false;
                ReceiveAction::Idle
            },
        }
    }
}

} // verus!

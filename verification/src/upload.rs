//! The plan of a chunked media upload: chunk count and sizes, concurrency,
//! retries, and the request bodies of its three steps.

use base64::engine::general_purpose::STANDARD as BASE64_STD;
use base64::Engine;
use vstd::prelude::*;
use vstd::string::*;

use crate::error::{error_message, AiBotError};
use crate::logger::{is_utc_rfc3339, now_rfc3339};
use crate::crypto::base64_standard_decoded;
use crate::text::{ascii_bytes, decimal_nat, usize_to_decimal};
use crate::types::api::{
    UploadMediaChunkBody, UploadMediaFinishBody, UploadMediaFinishResult, UploadMediaInitBody, UploadMediaOptions,
};
use crate::utils::hex_lower;
use crate::text::opt_text;

verus! {

// ---------------------------------------------------------------------
// Outside computations

/// The 16-byte MD5 digest of the data.
pub uninterp spec fn md5_digest(data: Seq<u8>) -> Seq<u8>;

/// The base64 digit for a six-bit value: `A`-`Z`, `a`-`z`, `0`-`9`, `+`,
/// `/` (the STANDARD alphabet).
pub open spec fn base64_digit(n: int) -> char {
    if n < 26 {
        (65 + n) as char
    } else if n < 52 {
        (97 + (n - 26)) as char
    } else if n < 62 {
        (48 + (n - 52)) as char
    } else if n == 62 {
        '+'
    } else {
        '/'
    }
}

/// The base64 text of the data (STANDARD alphabet, with padding): each
/// group of three bytes, high bits first, as four digits of six bits; a
/// last group of one or two bytes as two or three digits, its missing
/// bits zero, padded with `=` to four characters.
pub open spec fn base64_standard_encoded(data: Seq<u8>) -> Seq<char>
    decreases data.len(),
{
    if data.len() == 0 {
        Seq::empty()
    } else if data.len() == 1 {
        let a = data[0] as int;
        seq![base64_digit(a / 4), base64_digit((a % 4) * 16), '=', '=']
    } else if data.len() == 2 {
        let a = data[0] as int;
        let b = data[1] as int;
        seq![base64_digit(a / 4), base64_digit((a % 4) * 16 + b / 16), base64_digit((b % 16) * 4), '=']
    } else {
        let a = data[0] as int;
        let b = data[1] as int;
        let c = data[2] as int;
        seq![
            base64_digit(a / 4),
            base64_digit((a % 4) * 16 + b / 16),
            base64_digit((b % 16) * 4 + c / 64),
            base64_digit(c % 64),
        ] + base64_standard_encoded(data.skip(3))
    }
}

/// Calls `md5::compute` and formats the digest with `{:x}`, which, as the
/// md5 crate's source shows, writes each of its 16 bytes as two lower-case
/// hexadecimal digits. The digest itself is named, not described.
#[verifier::external_body]
fn md5_hex(data: &[u8]) -> (s: String)
    ensures
        s@ == hex_lower(md5_digest(data@)),
        s@.len() == 32,
{
    format!("{:x}", md5::compute(data))
}

/// Calls base64's `Engine::encode` on the STANDARD engine, which writes
/// the standard base64 text with padding, as `base64_standard_encoded`
/// states it. The text is ASCII, and the same engine's `decode` gives the
/// data back from its bytes: the encoder writes canonical padding and zero
/// trailing bits, which the decoder requires. The bound on the length
/// keeps `encoded_len` from overflowing, where `encode` panics.
#[verifier::external_body]
fn base64_encode_standard(data: &[u8]) -> (s: String)
    requires
        data@.len() <= usize::MAX / 2,
    ensures
        s@ == base64_standard_encoded(data@),
        base64_standard_decoded(ascii_bytes(s@)) is Ok,
        base64_standard_decoded(ascii_bytes(s@))->Ok_0 == data@,
{
    BASE64_STD.encode(data)
}

// ---------------------------------------------------------------------
// Plan

/// Size of every chunk but the last, in bytes (512 KiB).
pub const UPLOAD_CHUNK_SIZE: usize = 524288;

/// Most chunks of one upload (about 50 MB).
pub const MAX_UPLOAD_CHUNKS: usize = 100;

/// Retries of a failed chunk after its first attempt.
pub const MAX_CHUNK_RETRIES: u32 = 2;

/// Base delay between retries of a chunk, in milliseconds.
pub const CHUNK_RETRY_BASE_DELAY_MS: u64 = 500;

/// The number of chunks of `total` bytes.
pub open spec fn chunk_count(total: nat) -> nat {
    total / (UPLOAD_CHUNK_SIZE as nat) + if total % (UPLOAD_CHUNK_SIZE as nat) == 0 { 0nat } else { 1nat }
}

/// How many chunks are sent at once for `n` chunks.
pub open spec fn upload_concurrency(n: nat) -> nat {
    if n <= 4 { n } else if n <= 10 { 3 } else { 2 }
}

/// How an upload of `total_size` bytes is carried out.
#[derive(Debug, Clone, Copy, PartialEq, Eq, Structural)]
pub struct UploadPlan {
    pub total_size: usize,
    pub total_chunks: usize,
    pub max_concurrency: usize,
}

/// The plan that `plan_upload` gives for a size it accepts.
pub open spec fn plan_of(p: UploadPlan) -> bool {
    &&& p.total_size > 0
    &&& p.total_chunks == chunk_count(p.total_size as nat)
    &&& p.total_chunks <= MAX_UPLOAD_CHUNKS
    &&& p.max_concurrency == upload_concurrency(p.total_chunks as nat)
}

/// The message of the error for a file of too many chunks.
pub open spec fn too_large_message(chunks: nat) -> Seq<char> {
    "File too large: "@ + decimal_nat(chunks) + " chunks exceeds maximum of 100 chunks (max ~50MB)"@
}

/// Plans the upload of `total_size` bytes: refused when empty or of more
/// than 100 chunks.
pub fn plan_upload(total_size: usize) -> (r: Result<UploadPlan, AiBotError>)
    ensures
        total_size == 0 ==> (r matches Err(AiBotError::UploadFailed(m)) && m@ == "File buffer is empty"@),
        total_size > 0 && chunk_count(total_size as nat) > MAX_UPLOAD_CHUNKS ==> (r matches Err(
            AiBotError::UploadFailed(m),
        ) && m@ == too_large_message(chunk_count(total_size as nat))),
        total_size > 0 && chunk_count(total_size as nat) <= MAX_UPLOAD_CHUNKS ==> (r matches Ok(p)
            && p.total_size == total_size && plan_of(p)),
{
    if total_size == 0 {
        return Err(AiBotError::UploadFailed(String::from_str("File buffer is empty")));
    }
    let chunks = total_size / UPLOAD_CHUNK_SIZE + if total_size % UPLOAD_CHUNK_SIZE == 0 { 0 } else { 1 };
    if chunks > MAX_UPLOAD_CHUNKS {
        let mut m = String::from_str("File too large: ");
        let d = usize_to_decimal(chunks);
        m.append(d.as_str());
        m.append(" chunks exceeds maximum of 100 chunks (max ~50MB)");
        return Err(AiBotError::UploadFailed(m));
    }
    let concurrency = if chunks <= 4 { chunks } else if chunks <= 10 { 3 } else { 2 };
    Ok(UploadPlan { total_size, total_chunks: chunks, max_concurrency: concurrency })
}

/// Where chunk `i` starts.
pub open spec fn chunk_start(i: nat) -> nat {
    i * (UPLOAD_CHUNK_SIZE as nat)
}

/// Where chunk `i` of `total` bytes ends (exclusive).
pub open spec fn chunk_end(total: nat, i: nat) -> nat {
    let e = chunk_start(i) + (UPLOAD_CHUNK_SIZE as nat);
    if e < total { e } else { total }
}

/// The bytes of chunk `i` of a file.
pub open spec fn chunk_payload(file: Seq<u8>, i: nat) -> Seq<u8> {
    file.subrange(chunk_start(i) as int, chunk_end(file.len(), i) as int)
}

/// The first `n` chunks of a file, joined in order.
pub open spec fn chunks_joined(file: Seq<u8>, n: nat) -> Seq<u8>
    decreases n,
{
    if n == 0 { Seq::empty() } else { chunks_joined(file, (n - 1) as nat) + chunk_payload(file, (n - 1) as nat) }
}

/// The byte range `[start, end)` of chunk `index`.
pub fn chunk_bounds(plan: &UploadPlan, index: usize) -> (r: (usize, usize))
    requires
        plan_of(*plan),
        index < plan.total_chunks,
    ensures
        r.0 == chunk_start(index as nat),
        r.1 == chunk_end(plan.total_size as nat, index as nat),
{
    let start = index * UPLOAD_CHUNK_SIZE;
    let end = if start + UPLOAD_CHUNK_SIZE < plan.total_size { start + UPLOAD_CHUNK_SIZE } else { plan.total_size };
    (start, end)
}

/// What to do after attempt `attempt` (from 0) of a chunk failed: wait the
/// returned delay and try again, or give up (`None`).
pub open spec fn chunk_retry_delay(attempt: nat) -> Option<nat> {
    if attempt < MAX_CHUNK_RETRIES { Some((CHUNK_RETRY_BASE_DELAY_MS as nat) * (attempt + 1)) } else { None }
}

/// The delay before retrying a chunk whose attempt `attempt` failed, or
/// `None` when no retry is left.
pub fn chunk_retry_after(attempt: u32) -> (d: Option<u64>)
    ensures
        match d {
            Some(ms) => chunk_retry_delay(attempt as nat) == Some(ms as nat),
            None => chunk_retry_delay(attempt as nat) is None,
        },
{
    if attempt < MAX_CHUNK_RETRIES {
        Some(CHUNK_RETRY_BASE_DELAY_MS * (attempt as u64 + 1))
    } else {
        None
    }
}

// ---------------------------------------------------------------------
// Request bodies

/// The body of the first upload step.
pub fn build_upload_init_body(options: &UploadMediaOptions, file: &[u8], plan: &UploadPlan) -> (b: UploadMediaInitBody)
    ensures
        b.type_ == options.type_,
        b.filename == options.filename,
        b.total_size == plan.total_size,
        b.total_chunks == plan.total_chunks,
        b.md5 matches Some(m) && m@ == hex_lower(md5_digest(file@)),
{
    UploadMediaInitBody {
        type_: options.type_.clone(),
        filename: options.filename.clone(),
        total_size: plan.total_size,
        total_chunks: plan.total_chunks,
        md5: Some(md5_hex(file)),
    }
}

/// The body that uploads chunk `index` of `file`.
pub fn build_upload_chunk_body(upload_id: &str, file: &[u8], plan: &UploadPlan, index: usize) -> (b: UploadMediaChunkBody)
    requires
        plan_of(*plan),
        plan.total_size == file@.len(),
        index < plan.total_chunks,
    ensures
        b.upload_id@ == upload_id@,
        b.chunk_index == index,
        b.base64_data@ == base64_standard_encoded(chunk_payload(file@, index as nat)),
        base64_standard_decoded(ascii_bytes(b.base64_data@)) is Ok,
        base64_standard_decoded(ascii_bytes(b.base64_data@))->Ok_0 == chunk_payload(file@, index as nat),
{
    let (start, end) = chunk_bounds(plan, index);
    let chunk = &file[start..end];
    UploadMediaChunkBody {
        upload_id: String::from_str(upload_id),
        chunk_index: index,
        base64_data: base64_encode_standard(chunk),
    }
}

/// The body of the last upload step.
pub fn build_upload_finish_body(upload_id: &str) -> (b: UploadMediaFinishBody)
    ensures
        b.upload_id@ == upload_id@,
{
    UploadMediaFinishBody { upload_id: String::from_str(upload_id) }
}

/// The upload id of the first step's answer, required to go on.
pub fn require_upload_id(upload_id: Option<String>) -> (r: Result<String, AiBotError>)
    ensures
        match upload_id {
            Some(id) => r == Ok::<String, AiBotError>(id),
            None => r matches Err(AiBotError::UploadFailed(m)) && m@ == "Upload init failed: no upload_id returned"@,
        },
{
    match upload_id {
        Some(id) => Ok(id),
        None => Err(AiBotError::UploadFailed(String::from_str("Upload init failed: no upload_id returned"))),
    }
}

/// The error of a chunk that failed every attempt: its last error.
pub fn chunk_failure(last_error: Option<AiBotError>) -> (e: AiBotError)
    ensures
        match last_error {
            Some(x) => e == x,
            None => e matches AiBotError::UploadFailed(m) && m@ == "Unknown chunk error"@,
        },
{
    match last_error {
        Some(x) => x,
        None => AiBotError::UploadFailed(String::from_str("Unknown chunk error")),
    }
}

/// The error of an upload some of whose chunks failed.
pub open spec fn upload_failure_message(failed: nat, first: AiBotError) -> Seq<char> {
    "Upload failed: "@ + decimal_nat(failed) + " chunk(s) failed. First error: "@ + error_message(first)
}

/// The error reported when chunks failed, given their errors in order.
pub fn upload_failure(failed: &Vec<AiBotError>) -> (e: AiBotError)
    requires
        failed@.len() > 0,
    ensures
        e matches AiBotError::UploadFailed(m) && m@ == upload_failure_message(failed@.len(), failed@[0]),
{
    let mut m = String::from_str("Upload failed: ");
    let d = usize_to_decimal(failed.len());
    m.append(d.as_str());
    m.append(" chunk(s) failed. First error: ");
    let first = failed[0].message();
    m.append(first.as_str());
    AiBotError::UploadFailed(m)
}

/// The number of chunks among the first `n` that settled without being
/// acknowledged.
pub open spec fn failed_count(settled: Seq<bool>, acked: Seq<bool>, n: int) -> nat
    decreases n,
{
    if n <= 0 {
        0
    } else {
        failed_count(settled, acked, n - 1) + if settled[n - 1] && !acked[n - 1] { 1nat } else { 0nat }
    }
}

proof fn lemma_failed_count_none(z: Seq<bool>, n: int)
    requires
        0 <= n <= z.len(),
        forall|i: int| 0 <= i < z.len() ==> !#[trigger] z[i],
    ensures
        failed_count(z, z, n) == 0,
    decreases n,
{
    if n > 0 {
        lemma_failed_count_none(z, n - 1);
    }
}

proof fn lemma_failed_count_update(settled: Seq<bool>, acked: Seq<bool>, idx: int, ok: bool, n: int)
    requires
        settled.len() == acked.len(),
        0 <= idx < settled.len(),
        !settled[idx],
        !acked[idx],
        0 <= n <= settled.len(),
    ensures
        failed_count(settled.update(idx, true), acked.update(idx, ok), n) == failed_count(settled, acked, n)
            + if n > idx && !ok { 1nat } else { 0nat },
    decreases n,
{
    if n > 0 {
        lemma_failed_count_update(settled, acked, idx, ok, n - 1);
    }
}

/// What is known of the chunks of an upload while they are sent: which
/// were acknowledged, which have settled (acknowledged, or failed every
/// attempt), and the errors of the failed ones in the order they failed.
pub struct ChunkProgress {
    acked: Vec<bool>,
    settled: Vec<bool>,
    errors: Vec<AiBotError>,
}

impl ChunkProgress {
    /// For each chunk, whether it was acknowledged.
    pub closed spec fn acked_view(&self) -> Seq<bool> {
        self.acked@
    }

    /// For each chunk, whether it has settled.
    pub closed spec fn settled_view(&self) -> Seq<bool> {
        self.settled@
    }

    /// The errors of the failed chunks, in the order they failed.
    pub closed spec fn errors_view(&self) -> Seq<AiBotError> {
        self.errors@
    }

    /// The progress's invariant: one flag of each kind per chunk, an
    /// acknowledged chunk has settled, there are errors exactly when a
    /// settled chunk was not acknowledged, and one error per such chunk.
    pub open spec fn wf(&self) -> bool {
        &&& self.acked_view().len() == self.settled_view().len()
        &&& forall|i: int| 0 <= i < self.acked_view().len() && #[trigger] self.acked_view()[i] ==> self.settled_view()[i]
        &&& (self.errors_view().len() == 0) == (forall|i: int|
            0 <= i < self.settled_view().len() && #[trigger] self.settled_view()[i] ==> self.acked_view()[i])
        &&& self.errors_view().len() == failed_count(self.settled_view(), self.acked_view(), self.settled_view().len() as int)
    }

    /// No chunk of `total_chunks` has settled yet.
    pub fn new(total_chunks: usize) -> (p: Self)
        ensures
            p.wf(),
            p.acked_view() == Seq::new(total_chunks as nat, |i: int| false),
            p.settled_view() == Seq::new(total_chunks as nat, |i: int| false),
            p.errors_view() == Seq::<AiBotError>::empty(),
    {
        let mut acked: Vec<bool> = Vec::new();
        let mut settled: Vec<bool> = Vec::new();
        let mut i: usize = 0;
        while i < total_chunks
            invariant
                i <= total_chunks,
                acked@ == Seq::new(i as nat, |j: int| false),
                settled@ == Seq::new(i as nat, |j: int| false),
            decreases total_chunks - i,
        {
            acked.push(false);
            settled.push(false);
            i = i + 1;
            assert(acked@ =~= Seq::new(i as nat, |j: int| false));
            assert(settled@ =~= Seq::new(i as nat, |j: int| false));
        }
        proof {
            lemma_failed_count_none(settled@, total_chunks as int);
        }
        ChunkProgress { acked, settled, errors: Vec::new() }
    }

    /// Whether chunk `index` has settled.
    pub fn is_settled(&self, index: usize) -> (b: bool)
        requires
            index < self.settled_view().len(),
        ensures
            b == self.settled_view()[index as int],
    {
        self.settled[index]
    }

    /// Records how chunk `index` ended: acknowledged, or failed every
    /// attempt with the given error.
    pub fn record(&mut self, index: usize, result: Result<(), AiBotError>)
        requires
            old(self).wf(),
            index < old(self).settled_view().len(),
            !old(self).settled_view()[index as int],
        ensures
            final(self).wf(),
            final(self).settled_view() == old(self).settled_view().update(index as int, true),
            final(self).acked_view() == old(self).acked_view().update(index as int, result is Ok),
            final(self).errors_view() == match result {
                Ok(_) => old(self).errors_view(),
                Err(e) => old(self).errors_view().push(e),
            },
    {
        let ghost a0 = self.acked@;
        let ghost s0 = self.settled@;
        proof {
            assert(!a0[index as int]);
            lemma_failed_count_update(s0, a0, index as int, result is Ok, s0.len() as int);
        }
        self.settled.set(index, true);
        match result {
            Ok(_) => {
                self.acked.set(index, true);
                assert(self.settled@ =~= s0.update(index as int, true));
                assert(self.acked@ =~= a0.update(index as int, true));
                assert((self.errors@.len() == 0) == (forall|i: int|
                    0 <= i < self.settled@.len() && #[trigger] self.settled@[i] ==> self.acked@[i])) by {
                    assert forall|i: int| 0 <= i < self.settled@.len() && i != index implies
                        self.settled@[i] == s0[i] && self.acked@[i] == a0[i] by {}
                }
            },
            Err(e) => {
                self.errors.push(e);
                assert(self.settled@ =~= s0.update(index as int, true));
                assert(self.acked@ =~= a0.update(index as int, false));
                assert(self.settled@[index as int] && !self.acked@[index as int]);
            },
        }
    }

    /// Whether every chunk has settled.
    pub open spec fn all_settled(&self) -> bool {
        forall|i: int| 0 <= i < self.settled_view().len() ==> #[trigger] self.settled_view()[i]
    }

    /// The outcome of the chunk phase once every chunk has settled: `Ok`
    /// exactly when every chunk was acknowledged, so that the upload may be
    /// finished; else, for a single chunk, its error, and for more, the
    /// error naming how many failed and the first failure.
    pub fn outcome(self) -> (r: Result<(), AiBotError>)
        requires
            self.wf(),
            self.all_settled(),
        ensures
            r is Ok <==> forall|i: int| 0 <= i < self.acked_view().len() ==> #[trigger] self.acked_view()[i],
            r is Ok <==> self.errors_view().len() == 0,
            self.errors_view().len() > 0 && self.acked_view().len() <= 1 ==> r == Err::<(), AiBotError>(
                self.errors_view()[0],
            ),
            self.errors_view().len() > 0 && self.acked_view().len() > 1 ==> (r matches Err(
                AiBotError::UploadFailed(m),
            ) && m@ == upload_failure_message(self.errors_view().len(), self.errors_view()[0])),
    {
        if self.errors.len() == 0 {
            assert forall|i: int| 0 <= i < self.acked@.len() implies #[trigger] self.acked@[i] by {
                assert(self.settled@[i]);
            }
            return Ok(());
        }
        assert(exists|i: int| 0 <= i < self.settled@.len() && self.settled@[i] && !self.acked@[i]);
        if self.acked.len() <= 1 {
            let mut errors = self.errors;
            Err(errors.remove(0))
        } else {
            Err(upload_failure(&self.errors))
        }
    }
}

/// The result of a finished upload from the fields of the last step's
/// answer: the media id is required, the type defaults to empty and the
/// creation time to `now`.
pub fn finish_upload_result_at(
    media_id: Option<String>,
    media_type: Option<String>,
    created_at: Option<String>,
    now: &str,
) -> (r: Result<UploadMediaFinishResult, AiBotError>)
    ensures
        media_id is None ==> (r matches Err(AiBotError::UploadFailed(m)) && m@
            == "Upload finish failed: no media_id returned"@),
        media_id is Some ==> (r matches Ok(res) && opt_text(media_id) == Some(res.media_id@)
            && res.type_@ == match media_type {
            Some(t) => t@,
            None => Seq::<char>::empty(),
        } && res.created_at@ == match created_at {
            Some(c) => c@,
            None => now@,
        }),
{
    let id = match media_id {
        Some(id) => id,
        None => {
            return Err(AiBotError::UploadFailed(String::from_str("Upload finish failed: no media_id returned")));
        },
    };
    let t = match media_type {
        Some(t) => t,
        None => String::new(),
    };
    let c = match created_at {
        Some(c) => c,
        None => String::from_str(now),
    };
    Ok(UploadMediaFinishResult { type_: t, media_id: id, created_at: c })
}

/// As `finish_upload_result_at`, with the current time when the answer
/// gives no creation time.
pub fn finish_upload_result(
    media_id: Option<String>,
    media_type: Option<String>,
    created_at: Option<String>,
) -> (r: Result<UploadMediaFinishResult, AiBotError>)
    ensures
        media_id is None ==> (r matches Err(AiBotError::UploadFailed(m)) && m@
            == "Upload finish failed: no media_id returned"@),
        media_id is Some ==> (r matches Ok(res) && opt_text(media_id) == Some(res.media_id@)
            && res.type_@ == match media_type {
            Some(t) => t@,
            None => Seq::<char>::empty(),
        } && match created_at {
            Some(c) => res.created_at@ == c@,
            None => is_utc_rfc3339(res.created_at@),
        }),
{
    if media_id.is_some() && created_at.is_none() {
        let now = now_rfc3339();
        finish_upload_result_at(media_id, media_type, created_at, now.as_str())
    } else {
        finish_upload_result_at(media_id, media_type, created_at, "")
    }
}

// ---------------------------------------------------------------------
// Laws

/// The chunks of a planned upload cover the file exactly, in order, each
/// non-empty and at most one chunk size long.
pub proof fn lemma_chunks_partition(total: nat, i: nat)
    requires
        total > 0,
        i < chunk_count(total),
    ensures
        chunk_start(i) < chunk_end(total, i) <= total,
        chunk_end(total, i) - chunk_start(i) <= UPLOAD_CHUNK_SIZE,
        i + 1 < chunk_count(total) ==> chunk_end(total, i) == chunk_start(i + 1),
        i + 1 == chunk_count(total) ==> chunk_end(total, i) == total,
        chunk_start(0) == 0,
{
    let cs = UPLOAD_CHUNK_SIZE as nat;
    let q = total / cs;
    let r = total % cs;
    assert(total == q * cs + r) by (nonlinear_arith)
        requires
            cs > 0,
            q == total / cs,
            r == total % cs,
    ;
    assert(chunk_start(i + 1) == chunk_start(i) + cs) by (nonlinear_arith)
        requires
            chunk_start(i + 1) == (i + 1) * cs,
            chunk_start(i) == i * cs,
    ;
    assert(chunk_start(0) == 0);
    if r == 0 {
        assert(i < q);
        assert(i * cs + cs <= q * cs) by (nonlinear_arith)
            requires
                i < q,
                cs > 0,
        ;
        if i + 1 == q {
            assert(i * cs + cs == q * cs) by (nonlinear_arith)
                requires
                    i + 1 == q,
            ;
        }
    } else {
        assert(i <= q);
        if i < q {
            assert(i * cs + cs <= q * cs) by (nonlinear_arith)
                requires
                    i < q,
                    cs > 0,
            ;
        } else {
            assert(i * cs == q * cs);
        }
    }
}

proof fn lemma_chunks_joined_prefix(file: Seq<u8>, n: nat)
    requires
        file.len() > 0,
        0 < n <= chunk_count(file.len()),
    ensures
        chunks_joined(file, n) == file.subrange(0, chunk_end(file.len(), (n - 1) as nat) as int),
    decreases n,
{
    lemma_chunks_partition(file.len(), (n - 1) as nat);
    if n == 1 {
        assert(chunks_joined(file, 0) == Seq::<u8>::empty());
        assert(chunks_joined(file, 1) =~= file.subrange(0, chunk_end(file.len(), 0) as int));
    } else {
        lemma_chunks_joined_prefix(file, (n - 1) as nat);
        lemma_chunks_partition(file.len(), (n - 2) as nat);
        assert(chunks_joined(file, n) =~= file.subrange(0, chunk_end(file.len(), (n - 1) as nat) as int));
    }
}

/// The chunks of a file, joined in order, give the file back.
pub proof fn lemma_chunks_reassemble(file: Seq<u8>)
    requires
        file.len() > 0,
    ensures
        chunks_joined(file, chunk_count(file.len())) == file,
{
    let n = chunk_count(file.len());
    assert(n > 0);
    lemma_chunks_joined_prefix(file, n);
    lemma_chunks_partition(file.len(), (n - 1) as nat);
    assert(file.subrange(0, file.len() as int) =~= file);
}

/// A chunk is tried at most three times, waiting 500 ms and then 1000 ms
/// between the attempts.
pub proof fn lemma_chunk_retries()
    ensures
        chunk_retry_delay(0) == Some(500nat),
        chunk_retry_delay(1) == Some(1000nat),
        chunk_retry_delay(2) is None,
{
}

/// Uploads of up to four chunks send them all at once; larger ones send at
/// most three at a time, and never more than there are chunks.
pub proof fn lemma_concurrency_bounded(n: nat)
    requires
        n > 0,
    ensures
        1 <= upload_concurrency(n) <= n,
        n > 4 ==> upload_concurrency(n) <= 3,
{
}

} // verus!

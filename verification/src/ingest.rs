use vstd::prelude::*;

use crate::auth::views;
use crate::clock::new_uuid_v4;
use crate::entities::{opt_view, DocumentChunk, IngestionResult, ProcessCategory};
use crate::errors::{DomainError, DomainErrorKind};
use crate::text::{
    after_last, chars_of, concat2, concat3, decimal, decimal_text, owned, string_of_range, trim,
    trim_spec,
};

verus! {

// ---------------------------------------------------------------------------
// Source files
// ---------------------------------------------------------------------------

/// Name for what `std::path::Path::file_name` gives for the path `p`, as text:
/// the final component, or `None` when there is none (or it ends in `..`).
pub uninterp spec fn path_file_name(p: Seq<char>) -> Option<Seq<char>>;

/// Name for what `std::path::Path::join` gives for `base` extended with `name`,
/// as text.
pub uninterp spec fn path_join(base: Seq<char>, name: Seq<char>) -> Seq<char>;

/// `Path::new(p).file_name()` as text. Claimed: the outcome is
/// [`path_file_name`] of `p`.
#[verifier::external_body]
fn file_name_of(p: &str) -> (r: Option<String>)
    ensures
        opt_view(r) == path_file_name(p@),
{
    std::path::Path::new(p).file_name().and_then(|n| n.to_str()).map(|n| n.to_string())
}

/// `Path::new(base).join(name)` as text. Claimed: the outcome is [`path_join`] of
/// the arguments.
#[verifier::external_body]
fn join_path(base: &str, name: &str) -> (r: String)
    ensures
        r@ == path_join(base@, name@),
{
    std::path::Path::new(base).join(name).to_string_lossy().into_owned()
}

/// The extension of the file name `name` as `Path::extension` defines it: what
/// follows its last `.`, unless there is no `.` or the only one starts the name.
pub open spec fn extension_of(name: Seq<char>) -> Option<Seq<char>> {
    if exists|k: int| 0 < k < name.len() && name[k] == '.' {
        Some(after_last(name, '.'))
    } else {
        None
    }
}

/// The folder that ingested files are read from.
pub open spec fn source_folder() -> Seq<char> {
    "files_rag"@
}

/// Files that can be ingested: plain text and Markdown.
pub open spec fn supported_extension(name: Seq<char>) -> bool {
    extension_of(name) == Some("txt"@) || extension_of(name) == Some("md"@)
}

/// The error for a file that does not exist or cannot be ingested.
pub fn unsupported_file_error() -> (r: DomainError)
    ensures
        r@ == (
            DomainErrorKind::InvalidData,
            "Arquivo não encontrado ou formato inválido (suportado: .txt, .md)"@,
        ),
{
    DomainError::InvalidData(owned("Arquivo não encontrado ou formato inválido (suportado: .txt, .md)"))
}

/// The error for a file that could not be read; `detail` tells why.
pub fn read_error(detail: &str) -> (r: DomainError)
    ensures
        r@ == (DomainErrorKind::VectorDbError, "Erro ao ler arquivo: "@ + detail@),
{
    DomainError::VectorDbError(concat2("Erro ao ler arquivo: ", detail))
}

fn extension_is(name: &Vec<char>, ext: &str) -> (r: bool)
    ensures
        r == (extension_of(name@) == Some(ext@)),
{
    let n = name.len();
    let mut k: usize = n;
    while k > 0 && name[k - 1] != '.'
        invariant
            k <= n == name.len(),
            forall|j: int| k <= j < n ==> name@[j] != '.',
        decreases k,
    {
        k = k - 1;
    }
    // k - 1 is the last '.', if k > 0
    if k <= 1 {
        proof {
            assert(!(exists|q: int| 0 < q < name@.len() && name@[q] == '.')) by {
                if exists|q: int| 0 < q < name@.len() && name@[q] == '.' {
                    let q = choose|q: int| 0 < q < name@.len() && name@[q] == '.';
                    assert(q >= k);
                }
            }
        }
        return false;
    }
    proof {
        assert(name@[k - 1] == '.');
        lemma_after_last_is_skip(name@, '.', k - 1);
    }
    let tail = string_of_range(name, k, n);
    crate::text::str_eq(tail.as_str(), ext)
}

proof fn lemma_after_last_is_skip(s: Seq<char>, sep: char, k: int)
    requires
        0 <= k < s.len(),
        s[k] == sep,
        forall|j: int| k < j < s.len() ==> s[j] != sep,
    ensures
        after_last(s, sep) == s.subrange(k + 1, s.len() as int),
    decreases s.len(),
{
    if k == s.len() - 1 {
        assert(s.subrange(k + 1, s.len() as int).len() == 0);
    } else {
        let t = s.drop_last();
        lemma_after_last_is_skip(t, sep, k);
        assert(t.subrange(k + 1, t.len() as int).push(s.last()) == s.subrange(k + 1, s.len() as int));
    }
}

/// The extension of a file name is what follows its last `.`: a name made of a
/// non-empty stem, a `.` and a text without `.` has that text as its extension,
/// whatever dots the stem holds.
pub proof fn law_extension_follows_the_last_dot(stem: Seq<char>, ext: Seq<char>)
    requires
        stem.len() > 0,
        forall|i: int| 0 <= i < ext.len() ==> ext[i] != '.',
    ensures
        extension_of(stem + seq!['.'] + ext) == Some(ext),
{
    let name = stem + seq!['.'] + ext;
    let k = stem.len() as int;
    assert(name[k] == '.');
    assert forall|j: int| k < j < name.len() implies name[j] != '.' by {
        assert(name[j] == ext[j - k - 1]);
    }
    lemma_after_last_is_skip(name, '.', k);
    assert(name.subrange(k + 1, name.len() as int) == ext);
}

/// A file name without a `.` after its first character has no extension.
pub proof fn law_no_inner_dot_no_extension(name: Seq<char>)
    requires
        forall|i: int| 0 < i < name.len() ==> name[i] != '.',
    ensures
        extension_of(name) is None,
{
}

/// A file name whose last `.` comes after its first character and is followed
/// by `txt` or `md` is accepted, whatever dots come before.
pub proof fn law_txt_and_md_names_are_supported(stem: Seq<char>)
    requires
        stem.len() > 0,
    ensures
        supported_extension(stem + ".txt"@),
        supported_extension(stem + ".md"@),
{
    reveal_strlit(".txt");
    reveal_strlit(".md");
    reveal_strlit("txt");
    reveal_strlit("md");
    law_extension_follows_the_last_dot(stem, "txt"@);
    law_extension_follows_the_last_dot(stem, "md"@);
    assert(stem + ".txt"@ == stem + seq!['.'] + "txt"@);
    assert(stem + ".md"@ == stem + seq!['.'] + "md"@);
}

/// The path, inside the source folder, of the file that `file_path` names: only
/// its final component is kept. Refused when `file_path` has no file name, or
/// when the file is neither `.txt` nor `.md`.
pub fn resolve_source_path(file_path: &str) -> (r: Result<String, DomainError>)
    ensures
        match path_file_name(file_path@) {
            None => r matches Err(e) && e@ == (DomainErrorKind::InvalidData, "Nome de arquivo inválido"@),
            Some(name) => if supported_extension(name) {
                r matches Ok(p) && p@ == path_join(source_folder(), name)
            } else {
                r matches Err(e) && e@ == (
                    DomainErrorKind::InvalidData,
                    "Arquivo não encontrado ou formato inválido (suportado: .txt, .md)"@,
                )
            },
        },
{
    let name = match file_name_of(file_path) {
        Some(n) => n,
        None => return Err(DomainError::InvalidData(owned("Nome de arquivo inválido"))),
    };
    let chars = chars_of(name.as_str());
    if !(extension_is(&chars, "txt") || extension_is(&chars, "md")) {
        return Err(unsupported_file_error());
    }
    Ok(join_path("files_rag", name.as_str()))
}

/// The text to ingest from the raw content of a file: without leading and
/// trailing white space.
pub fn prepare_text(raw: &str) -> (r: String)
    ensures
        r@ == trim_spec(raw@),
{
    trim(raw)
}

// ---------------------------------------------------------------------------
// Chunks
// ---------------------------------------------------------------------------

/// The windows of `s` that start at `start` and then every `step` positions, each
/// `size` long (the last one may be shorter), until one reaches the end of `s`.
pub open spec fn windows<A>(s: Seq<A>, start: nat, size: nat, step: nat) -> Seq<Seq<A>>
    decreases s.len() - start,
{
    if step == 0 || step > size || start >= s.len() {
        Seq::empty()
    } else if start + size >= s.len() {
        seq![s.subrange(start as int, s.len() as int)]
    } else {
        seq![s.subrange(start as int, (start + size) as int)] + windows(s, start + step, size, step)
    }
}

/// The sequence that overlapping windows, each starting `step` positions after
/// the previous one, were cut from: the first `step` items of every window but
/// the last, followed by the last window.
pub open spec fn stitch<A>(ws: Seq<Seq<A>>, step: nat) -> Seq<A>
    decreases ws.len(),
{
    if ws.len() == 0 {
        Seq::empty()
    } else if ws.len() == 1 {
        ws[0]
    } else {
        ws[0].take(step as int) + stitch(ws.drop_first(), step)
    }
}

proof fn lemma_windows_stitch<A>(s: Seq<A>, start: nat, size: nat, step: nat)
    requires
        0 < step <= size,
        start < s.len(),
    ensures
        stitch(windows(s, start, size, step), step) == s.skip(start as int),
        windows(s, start, size, step).len() > 0,
    decreases s.len() - start,
{
    let ws = windows(s, start, size, step);
    if start + size >= s.len() {
        assert(ws == seq![s.subrange(start as int, s.len() as int)]);
        assert(s.subrange(start as int, s.len() as int) == s.skip(start as int));
    } else {
        let rest = windows(s, start + step, size, step);
        assert(ws == seq![s.subrange(start as int, (start + size) as int)] + rest);
        lemma_windows_stitch(s, start + step, size, step);
        assert(ws.drop_first() == rest);
        assert(ws.len() > 1);
        assert(ws[0].take(step as int) == s.subrange(start as int, (start + step) as int));
        assert(s.subrange(start as int, (start + step) as int) + s.skip((start + step) as int)
            == s.skip(start as int));
    }
}

proof fn lemma_windows_sizes<A>(s: Seq<A>, start: nat, size: nat, step: nat)
    requires
        0 < step <= size,
    ensures
        forall|i: int|
            0 <= i < windows(s, start, size, step).len() ==> {
                &&& 0 < (#[trigger] windows(s, start, size, step)[i]).len() <= size
                &&& (i + 1 < windows(s, start, size, step).len() ==> windows(
                    s,
                    start,
                    size,
                    step,
                )[i].len() == size)
            },
    decreases s.len() - start,
{
    if start < s.len() && start + size < s.len() {
        lemma_windows_sizes(s, start + step, size, step);
        let ws = windows(s, start, size, step);
        let rest = windows(s, start + step, size, step);
        assert(ws == seq![s.subrange(start as int, (start + size) as int)] + rest);
        assert forall|i: int| 0 < i < ws.len() implies ws[i] == rest[i - 1] by {}
    }
}

/// The chunks of a text lose nothing and cut it evenly: each chunk is at most
/// `chunk_size` long, every chunk but the last is exactly that long, and the text
/// is the first `chunk_size - overlap` characters of every chunk but the last,
/// followed by the last chunk. A non-empty text has at least one chunk.
pub proof fn law_chunks_cover_the_text(text: Seq<char>, chunk_size: nat, overlap: nat)
    requires
        overlap < chunk_size,
    ensures
        ({
            let ws = windows(text, 0, chunk_size, (chunk_size - overlap) as nat);
            &&& text.len() > 0 ==> ws.len() > 0
            &&& stitch(ws, (chunk_size - overlap) as nat) == text
            &&& forall|i: int|
                0 <= i < ws.len() ==> (#[trigger] ws[i]).len() <= chunk_size && (i + 1 < ws.len()
                    ==> ws[i].len() == chunk_size)
        }),
{
    let step = (chunk_size - overlap) as nat;
    lemma_windows_sizes(text, 0, chunk_size, step);
    if text.len() > 0 {
        lemma_windows_stitch(text, 0, chunk_size, step);
        assert(text.skip(0) == text);
    } else {
        assert(windows(text, 0, chunk_size, step).len() == 0);
        assert(text == Seq::<char>::empty());
    }
}

/// The chunks of `text`: windows of `chunk_size` characters, each starting
/// `chunk_size - overlap` characters after the previous one, all with the same
/// category and source file.
pub fn create_chunks(
    text: &str,
    category: ProcessCategory,
    source_filename: &str,
    chunk_size: usize,
    overlap: usize,
) -> (r: Vec<DocumentChunk>)
    requires
        overlap < chunk_size,
    ensures
        r@.len() == windows(text@, 0, chunk_size as nat, (chunk_size - overlap) as nat).len(),
        forall|i: int|
            0 <= i < r@.len() ==> #[trigger] r@[i].content@ == windows(
                text@,
                0,
                chunk_size as nat,
                (chunk_size - overlap) as nat,
            )[i],
        forall|i: int| 0 <= i < r@.len() ==> #[trigger] r@[i].category == category,
        forall|i: int| 0 <= i < r@.len() ==> #[trigger] r@[i].source_filename@ == source_filename@,
{
    let v = chars_of(text);
    let n = v.len();
    let step = chunk_size - overlap;
    let ghost all = windows(v@, 0, chunk_size as nat, step as nat);
    let mut out: Vec<DocumentChunk> = Vec::new();
    let mut start: usize = 0;
    loop
        invariant_except_break
            v@ == text@,
            n == v.len(),
            step == chunk_size - overlap,
            step > 0,
            all == windows(v@, 0, chunk_size as nat, step as nat),
            all == out@.map_values(|c: DocumentChunk| c.content@) + windows(
                v@,
                start as nat,
                chunk_size as nat,
                step as nat,
            ),
            forall|i: int|
                0 <= i < out@.len() ==> (#[trigger] out@[i]).category == category
                    && out@[i].source_filename@ == source_filename@,
        ensures
            all == out@.map_values(|c: DocumentChunk| c.content@),
            forall|i: int|
                0 <= i < out@.len() ==> (#[trigger] out@[i]).category == category
                    && out@[i].source_filename@ == source_filename@,
        decreases n - start,
    {
        let ghost before = out@;
        if start >= n {
            assert(out@.map_values(|c: DocumentChunk| c.content@) + Seq::<Seq<char>>::empty()
                == out@.map_values(|c: DocumentChunk| c.content@));
            break;
        }
        if chunk_size >= n - start {
            let piece = string_of_range(&v, start, n);
            out.push(DocumentChunk::new(piece, category, owned(source_filename)));
            assert(out@.map_values(|c: DocumentChunk| c.content@) =~= before.map_values(
                |c: DocumentChunk| c.content@,
            ) + windows(v@, start as nat, chunk_size as nat, step as nat));
            break;
        }
        let piece = string_of_range(&v, start, start + chunk_size);
        out.push(DocumentChunk::new(piece, category, owned(source_filename)));
        assert(out@.map_values(|c: DocumentChunk| c.content@) =~= before.map_values(
            |c: DocumentChunk| c.content@,
        ).push(v@.subrange(start as int, start + chunk_size)));
        assert(windows(v@, start as nat, chunk_size as nat, step as nat) == seq![
            v@.subrange(start as int, start + chunk_size),
        ] + windows(v@, (start + step) as nat, chunk_size as nat, step as nat));
        start = start + step;
    }
    out
}

/// The contents of `chunks`, in order.
pub open spec fn contents_of(chunks: Seq<DocumentChunk>) -> Seq<Seq<char>> {
    chunks.map_values(|c: DocumentChunk| c.content@)
}

/// The size of the batches in which embeddings are asked for.
pub open spec fn embedding_batch_size() -> nat {
    50
}

/// The contents of `chunks` in batches of [`embedding_batch_size`], in order.
pub fn embedding_batches(chunks: &Vec<DocumentChunk>) -> (r: Vec<Vec<String>>)
    ensures
        r@.len() == windows(contents_of(chunks@), 0, 50, 50).len(),
        forall|i: int|
            0 <= i < r@.len() ==> views(#[trigger] r@[i]@) == windows(
                contents_of(chunks@),
                0,
                50,
                50,
            )[i],
{
    let n = chunks.len();
    let ghost contents = contents_of(chunks@);
    let ghost all = windows(contents, 0, 50, 50);
    let mut out: Vec<Vec<String>> = Vec::new();
    let mut start: usize = 0;
    while start < n
        invariant
            n == chunks.len(),
            contents == contents_of(chunks@),
            all == windows(contents, 0, 50, 50),
            all == out@.map_values(|b: Vec<String>| views(b@)) + windows(
                contents,
                start as nat,
                50,
                50,
            ),
        decreases n - start,
    {
        let end: usize = if n - start <= 50 {
            n
        } else {
            start + 50
        };
        let mut batch: Vec<String> = Vec::new();
        let mut i: usize = start;
        while i < end
            invariant
                start <= i <= end <= n == chunks.len(),
                batch@.len() == i - start,
                forall|j: int| 0 <= j < batch@.len() ==> #[trigger] batch@[j]@ == chunks@[start + j].content@,
            decreases end - i,
        {
            batch.push(chunks[i].content.clone());
            i = i + 1;
        }
        assert(views(batch@) =~= contents.subrange(start as int, end as int));
        let ghost before = out@;
        out.push(batch);
        assert(out@.map_values(|b: Vec<String>| views(b@)) =~= before.map_values(
            |b: Vec<String>| views(b@),
        ).push(contents.subrange(start as int, end as int)));
        if end == n {
            assert(windows(contents, start as nat, 50, 50) == seq![
                contents.subrange(start as int, n as int),
            ]);
            assert(windows(contents, end as nat, 50, 50) == Seq::<Seq<Seq<char>>>::empty());
        } else {
            assert(windows(contents, start as nat, 50, 50) == seq![
                contents.subrange(start as int, end as int),
            ] + windows(contents, end as nat, 50, 50));
        }
        start = end;
    }
    assert(windows(contents, start as nat, 50, 50) == Seq::<Seq<Seq<char>>>::empty());
    assert(all =~= out@.map_values(|b: Vec<String>| views(b@)));
    proof {
        assert forall|i: int| 0 <= i < out@.len() implies views(#[trigger] out@[i]@) == all[i] by {
            assert(out@.map_values(|b: Vec<String>| views(b@))[i] == views(out@[i]@));
        }
    }
    out
}

/// The batches of embedding requests hold every chunk once, in order: put end to
/// end they give back the contents of the chunks, and every batch but the last
/// holds exactly [`embedding_batch_size`] contents.
pub proof fn law_batches_cover_the_chunks(contents: Seq<Seq<char>>)
    ensures
        ({
            let bs = windows(contents, 0, 50, 50);
            &&& stitch(bs, 50) == contents
            &&& forall|i: int|
                0 <= i < bs.len() ==> (#[trigger] bs[i]).len() <= 50 && (i + 1 < bs.len()
                    ==> bs[i].len() == 50)
        }),
{
    lemma_windows_sizes(contents, 0, 50, 50);
    if contents.len() > 0 {
        lemma_windows_stitch(contents, 0, 50, 50);
        assert(contents.skip(0) == contents);
    } else {
        assert(windows(contents, 0, 50, 50).len() == 0);
        assert(contents == Seq::<Seq<char>>::empty());
    }
}

/// The error for the batch at `batch_index` (counted from zero) whose embeddings
/// could not be generated because of `err`.
pub fn embedding_batch_error(batch_index: usize, err: &DomainError) -> (r: DomainError)
    requires
        batch_index < u64::MAX,
    ensures
        r@ == (
            DomainErrorKind::VectorDbError,
            "Erro ao gerar embeddings no lote "@ + decimal((batch_index + 1) as nat) + ": "@
                + err.text(),
        ),
{
    let number = decimal_text((batch_index as u64) + 1);
    let message = err.to_string();
    DomainError::VectorDbError(concat3(
        concat2("Erro ao gerar embeddings no lote ", number.as_str()).as_str(),
        ": ",
        message.as_str(),
    ))
}

/// One step of gathering embeddings batch by batch: the answer `outcome` of the
/// embedding service for the batch at `batch_index` (counted from zero) is added
/// after the embeddings gathered so far in `gathered`, or, when the service
/// failed, the gathering stops with the error that names the batch.
pub fn gather_batch<T>(gathered: &mut Vec<T>, batch_index: usize, outcome: Result<Vec<T>, DomainError>) -> (r:
    Result<(), DomainError>)
    requires
        batch_index < u64::MAX,
    ensures
        match outcome {
            Ok(v) => r is Ok && final(gathered)@ == old(gathered)@ + v@,
            Err(e) => {
                &&& final(gathered)@ == old(gathered)@
                &&& r matches Err(x) && x@ == (
                    DomainErrorKind::VectorDbError,
                    "Erro ao gerar embeddings no lote "@ + decimal((batch_index + 1) as nat) + ": "@
                        + e.text(),
                )
            },
        },
{
    match outcome {
        Ok(v) => {
            let mut v = v;
            gathered.append(&mut v);
            Ok(())
        },
        Err(e) => Err(embedding_batch_error(batch_index, &e)),
    }
}

/// The error for a failed call to the embedding service.
pub fn embedding_error() -> (r: DomainError)
    ensures
        r@ == (DomainErrorKind::VectorDbError, "Falha ao gerar embeddings"@),
{
    DomainError::VectorDbError(owned("Falha ao gerar embeddings"))
}

// ---------------------------------------------------------------------------
// The vector store
// ---------------------------------------------------------------------------

/// The length of the embedding vectors that the store holds.
pub open spec fn embedding_dimension() -> nat {
    1536
}

/// What storing chunks with their embeddings comes to.
#[derive(Debug, Clone, Copy, PartialEq, Eq, Structural)]
pub enum AddPlan {
    /// Nothing is stored: there are no chunks, or not one embedding per chunk.
    Skip,
    /// An embedding does not have the store's dimension: the write is refused.
    WrongDimension,
    /// The chunks are written.
    Write,
}

/// Every embedding has the store's dimension.
pub open spec fn dimensions_match(lengths: Seq<usize>) -> bool {
    forall|i: int| 0 <= i < lengths.len() ==> #[trigger] lengths[i] == embedding_dimension()
}

/// What storing `chunk_count` chunks with embeddings of lengths
/// `embedding_lengths` comes to.
pub fn plan_add(chunk_count: usize, embedding_lengths: &Vec<usize>) -> (r: AddPlan)
    ensures
        r == if chunk_count == 0 || chunk_count != embedding_lengths@.len() {
            AddPlan::Skip
        } else if !dimensions_match(embedding_lengths@) {
            AddPlan::WrongDimension
        } else {
            AddPlan::Write
        },
{
    if chunk_count == 0 || chunk_count != embedding_lengths.len() {
        return AddPlan::Skip;
    }
    let mut i: usize = 0;
    while i < embedding_lengths.len()
        invariant
            chunk_count != 0,
            chunk_count == embedding_lengths@.len(),
            i <= embedding_lengths@.len(),
            forall|j: int| 0 <= j < i ==> embedding_lengths@[j] == embedding_dimension(),
        decreases embedding_lengths.len() - i,
    {
        if embedding_lengths[i] != 1536 {
            assert(!dimensions_match(embedding_lengths@)) by {
                assert(embedding_lengths@[i as int] != embedding_dimension());
            }
            return AddPlan::WrongDimension;
        }
        i = i + 1;
    }
    AddPlan::Write
}

/// The message of a refused write with embeddings of the wrong dimension.
pub fn wrong_dimension_message() -> (r: String)
    ensures
        r@ == "Dimensão incorreta. Modelo gera 1536, esperado 1536"@,
{
    owned("Dimensão incorreta. Modelo gera 1536, esperado 1536")
}

/// The columns of the rows that store `chunks`: a fresh random identifier (a
/// hyphenated UUID, 36 characters), the content,
/// the category label and the source file of each chunk, in order.
pub struct DocumentColumns {
    pub ids: Vec<String>,
    pub contents: Vec<String>,
    pub categories: Vec<String>,
    pub sources: Vec<String>,
}

/// The columns of the rows that store `chunks`.
pub fn document_columns(chunks: &Vec<DocumentChunk>) -> (r: DocumentColumns)
    ensures
        r.ids@.len() == chunks@.len(),
        views(r.contents@) == contents_of(chunks@),
        r.categories@.len() == chunks@.len(),
        r.sources@.len() == chunks@.len(),
        forall|i: int|
            0 <= i < chunks@.len() ==> {
                &&& (#[trigger] r.categories@[i])@ == chunks@[i].category.label_spec()
                &&& r.sources@[i]@ == chunks@[i].source_filename@
            },
        forall|i: int| 0 <= i < chunks@.len() ==> (#[trigger] r.ids@[i])@.len() == 36,
{
    let mut ids: Vec<String> = Vec::new();
    let mut contents: Vec<String> = Vec::new();
    let mut categories: Vec<String> = Vec::new();
    let mut sources: Vec<String> = Vec::new();
    let mut i: usize = 0;
    while i < chunks.len()
        invariant
            i <= chunks@.len(),
            ids@.len() == i,
            contents@.len() == i,
            categories@.len() == i,
            sources@.len() == i,
            forall|j: int| 0 <= j < i ==> (#[trigger] contents@[j])@ == chunks@[j].content@,
            forall|j: int| 0 <= j < i ==> (#[trigger] categories@[j])@ == chunks@[j].category.label_spec(),
            forall|j: int| 0 <= j < i ==> (#[trigger] sources@[j])@ == chunks@[j].source_filename@,
            forall|j: int| 0 <= j < i ==> (#[trigger] ids@[j])@.len() == 36,
        decreases chunks.len() - i,
    {
        ids.push(new_uuid_v4());
        contents.push(chunks[i].content.clone());
        categories.push(chunks[i].category.to_string());
        sources.push(chunks[i].source_filename.clone());
        i = i + 1;
    }
    assert(views(contents@) =~= contents_of(chunks@));
    DocumentColumns { ids, contents, categories, sources }
}

/// The filter that keeps the rows of one category.
pub fn category_filter(category: &str) -> (r: String)
    ensures
        r@ == "category = '"@ + category@ + "'"@,
{
    concat3("category = '", category, "'")
}

/// The chunk that a stored row holds; an unknown category label reads as the
/// commercial category.
pub fn chunk_from_row(content: &str, category: &str, source: &str) -> (r: DocumentChunk)
    ensures
        r.content@ == content@,
        r.category == crate::entities::category_of_label(category@),
        r.source_filename@ == source@,
{
    DocumentChunk::new(owned(content), ProcessCategory::from_label(category), owned(source))
}

/// The outcome of storing `total_chunks` chunks.
pub fn ingestion_outcome(total_chunks: usize) -> (r: IngestionResult)
    ensures
        r.total_chunks == total_chunks,
        r.message@ == "Documentos indexados com sucesso!"@,
{
    IngestionResult::new(total_chunks)
}

/// The error for a failed access to the vector store.
pub fn vector_store_error() -> (r: DomainError)
    ensures
        r@ == (DomainErrorKind::VectorDbError, "Falha ao acessar banco de dados vetorial"@),
{
    DomainError::VectorDbError(owned("Falha ao acessar banco de dados vetorial"))
}

// ---------------------------------------------------------------------------
// The ingestion use case
// ---------------------------------------------------------------------------

/// Ingests text files into the vector store: reads, chunks, embeds, stores.
pub struct IngestDocumentUseCase<D, E> {
    document_repository: D,
    embedding_generator: E,
}

impl<D, E> IngestDocumentUseCase<D, E> {
    /// The vector store in use.
    pub closed spec fn documents(&self) -> D {
        self.document_repository
    }

    /// The embedding service in use.
    pub closed spec fn embeddings(&self) -> E {
        self.embedding_generator
    }

    pub fn new(document_repository: D, embedding_generator: E) -> (r: IngestDocumentUseCase<D, E>)
        ensures
            r.documents() == document_repository,
            r.embeddings() == embedding_generator,
    {
        IngestDocumentUseCase { document_repository, embedding_generator }
    }

    /// The vector store in use.
    pub fn document_repository(&self) -> (r: &D)
        ensures
            *r == self.documents(),
    {
        &self.document_repository
    }

    /// The embedding service in use.
    pub fn embedding_generator(&self) -> (r: &E)
        ensures
            *r == self.embeddings(),
    {
        &self.embedding_generator
    }

    /// The chunks of the text `raw_text` read from `file_path`, for the process
    /// labelled `processing_label`: windows of 1000 characters overlapping by 200.
    pub fn chunk_document(raw_text: &str, file_path: &str, processing_label: &str) -> (r: Vec<
        DocumentChunk,
    >)
        ensures
            r@.len() == windows(raw_text@, 0, 1000, 800).len(),
            forall|i: int|
                0 <= i < r@.len() ==> #[trigger] r@[i].content@ == windows(raw_text@, 0, 1000, 800)[i],
            forall|i: int|
                0 <= i < r@.len() ==> #[trigger] r@[i].category == crate::entities::category_of_label(
                    processing_label@,
                ),
            forall|i: int| 0 <= i < r@.len() ==> #[trigger] r@[i].source_filename@ == file_path@,
    {
        let category = ProcessCategory::from_label(processing_label);
        let r = create_chunks(raw_text, category, file_path, 1000, 200);
        r
    }
}

} // verus!

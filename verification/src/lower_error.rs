use vstd::prelude::*;
use vstd::string::*;
use crate::hir::Path;
use crate::intern::{Word, interned_text, word_text};
use crate::path_res::{PathFailure, ResolvePathError};
use crate::span::{FileId, FileSpan, InFile, Span, Spanned};

verus! {

/// What a path was expected to name, which decides how a failure to resolve
/// it is reported.
#[derive(Debug, Clone, Copy, PartialEq, Eq, Structural)]
pub enum PathResolutionResultKind {
    Type,
    Any,
    Use,
    Struct,
    Trait,
}

/// A failed path resolution, made ready for reporting: texts in place of
/// names, and every span placed in its file.
#[derive(Clone, Debug, PartialEq, Eq)]
pub enum LowerError {
    CouldNotResolveEmptyPath { path_file_span: FileSpan },
    CannotAccessPrivatePathSegment {
        path: String,
        path_file_span: FileSpan,
        erroneous_segment: String,
        erroneous_segment_file_span: FileSpan,
    },
    CouldNotResolvePath {
        path: String,
        path_file_span: FileSpan,
        erroneous_segment: String,
        erroneous_segment_file_span: FileSpan,
    },
    UnresolvedType { ty: String, ty_file_span: FileSpan },
    UnresolvedStruct { strukt: String, strukt_file_span: FileSpan },
    UnresolvedTrait { trt: String, trt_file_span: FileSpan },
}

pub enum LowerErrorView {
    CouldNotResolveEmptyPath { path_file_span: FileSpan },
    CannotAccessPrivatePathSegment {
        path: Seq<char>,
        path_file_span: FileSpan,
        erroneous_segment: Seq<char>,
        erroneous_segment_file_span: FileSpan,
    },
    CouldNotResolvePath {
        path: Seq<char>,
        path_file_span: FileSpan,
        erroneous_segment: Seq<char>,
        erroneous_segment_file_span: FileSpan,
    },
    UnresolvedType { ty: Seq<char>, ty_file_span: FileSpan },
    UnresolvedStruct { strukt: Seq<char>, strukt_file_span: FileSpan },
    UnresolvedTrait { trt: Seq<char>, trt_file_span: FileSpan },
}

impl View for LowerError {
    type V = LowerErrorView;

    open spec fn view(&self) -> LowerErrorView {
        match self {
            LowerError::CouldNotResolveEmptyPath { path_file_span } => {
                LowerErrorView::CouldNotResolveEmptyPath { path_file_span: *path_file_span }
            },
            LowerError::CannotAccessPrivatePathSegment {
                path,
                path_file_span,
                erroneous_segment,
                erroneous_segment_file_span,
            } => LowerErrorView::CannotAccessPrivatePathSegment {
                path: path@,
                path_file_span: *path_file_span,
                erroneous_segment: erroneous_segment@,
                erroneous_segment_file_span: *erroneous_segment_file_span,
            },
            LowerError::CouldNotResolvePath {
                path,
                path_file_span,
                erroneous_segment,
                erroneous_segment_file_span,
            } => LowerErrorView::CouldNotResolvePath {
                path: path@,
                path_file_span: *path_file_span,
                erroneous_segment: erroneous_segment@,
                erroneous_segment_file_span: *erroneous_segment_file_span,
            },
            LowerError::UnresolvedType { ty, ty_file_span } => LowerErrorView::UnresolvedType {
                ty: ty@,
                ty_file_span: *ty_file_span,
            },
            LowerError::UnresolvedStruct { strukt, strukt_file_span } => {
                LowerErrorView::UnresolvedStruct {
                    strukt: strukt@,
                    strukt_file_span: *strukt_file_span,
                }
            },
            LowerError::UnresolvedTrait { trt, trt_file_span } => LowerErrorView::UnresolvedTrait {
                trt: trt@,
                trt_file_span: *trt_file_span,
            },
        }
    }
}

/// What stands between two segments of a path.
pub open spec fn separator() -> Seq<char> {
    seq![':', ':']
}

/// The texts of `segments`, in order, as `interner` holds them.
pub open spec fn segment_texts(interner: lasso::ThreadedRodeo, segments: Seq<Word>) -> Seq<
    Seq<char>,
> {
    Seq::new(segments.len(), |i: int| interned_text(interner, segments[i]))
}

/// The texts joined by `::`.
pub open spec fn join_segments(texts: Seq<Seq<char>>) -> Seq<char>
    decreases texts.len(),
{
    if texts.len() == 0 {
        Seq::empty()
    } else if texts.len() == 1 {
        texts[0]
    } else {
        join_segments(texts.drop_last()) + separator() + texts.last()
    }
}

/// The number of bytes that a text takes in a source file.
pub open spec fn width(text: Seq<char>) -> usize {
    vstd::utf8::encode_utf8(text).len() as usize
}

/// The offset of the segment `idx` from the start of its path: the widths
/// of the segments before it, and two bytes of separator after each of them.
pub open spec fn segment_start(texts: Seq<Seq<char>>, idx: int) -> int
    decreases idx,
{
    if idx <= 0 {
        0
    } else {
        segment_start(texts, idx - 1) + width(texts[idx - 1]) + 2
    }
}

/// The texts that a list of strings holds, in order.
pub open spec fn string_views(texts: Seq<String>) -> Seq<Seq<char>> {
    Seq::new(texts.len(), |i: int| texts[i]@)
}

/// Where the segment `idx` stands in a path that begins at the offset
/// `start` and whose segments have the texts `texts`: it begins after the
/// segments before it and their separators, and is as wide as its text.
/// There is no such place where the path has no segment `idx`, and none
/// where the segment's end cannot be written as an offset.
pub open spec fn placed(start: u32, texts: Seq<Seq<char>>, idx: int) -> Option<Span> {
    if 0 <= idx < texts.len() && start + segment_start(texts, idx) + width(texts[idx])
        <= u32::MAX {
        Some(
            Span {
                start: (start + segment_start(texts, idx)) as u32,
                end: (start + segment_start(texts, idx) + width(texts[idx])) as u32,
            },
        )
    } else {
        None
    }
}

/// A later segment does not begin before an earlier one.
pub proof fn lemma_segment_start_grows(texts: Seq<Seq<char>>, earlier: int, later: int)
    requires
        0 <= earlier <= later,
    ensures
        0 <= segment_start(texts, earlier) <= segment_start(texts, later),
    decreases later,
{
    if earlier < later {
        lemma_segment_start_grows(texts, earlier, later - 1);
    } else if earlier > 0 {
        lemma_segment_start_grows(texts, earlier - 1, earlier - 1);
    }
}

/// Where a segment begins depends on the segments before it alone.
pub proof fn lemma_segment_start_of_prefix(texts: Seq<Seq<char>>, count: int, idx: int)
    requires
        0 <= idx <= count <= texts.len(),
    ensures
        segment_start(texts.take(count), idx) == segment_start(texts, idx),
    decreases idx,
{
    if idx > 0 {
        lemma_segment_start_of_prefix(texts, count, idx - 1);
    }
}

/// How the failure `failure` on a path is reported, given the path's text
/// and span, the text and span of the segment at fault, and what the path
/// was expected to name.
///
/// An empty path is reported as such and a private segment as such. An
/// unresolved segment is reported by what was expected: an unresolved type,
/// struct or trait, or else a path that could not be resolved.
pub open spec fn lower_error_model(
    failure: PathFailure,
    expected_kind: PathResolutionResultKind,
    path: Seq<char>,
    path_file_span: FileSpan,
    erroneous_segment: Seq<char>,
    erroneous_segment_file_span: FileSpan,
) -> LowerErrorView {
    match failure {
        PathFailure::EmptyPath => LowerErrorView::CouldNotResolveEmptyPath { path_file_span },
        PathFailure::PrivateModule { .. } => LowerErrorView::CannotAccessPrivatePathSegment {
            path,
            path_file_span,
            erroneous_segment,
            erroneous_segment_file_span,
        },
        PathFailure::UnresolvedPath { .. } => match expected_kind {
            PathResolutionResultKind::Any => LowerErrorView::CouldNotResolvePath {
                path,
                path_file_span,
                erroneous_segment,
                erroneous_segment_file_span,
            },
            PathResolutionResultKind::Type => LowerErrorView::UnresolvedType {
                ty: path,
                ty_file_span: path_file_span,
            },
            PathResolutionResultKind::Use => LowerErrorView::CouldNotResolvePath {
                path,
                path_file_span,
                erroneous_segment,
                erroneous_segment_file_span,
            },
            PathResolutionResultKind::Struct => LowerErrorView::UnresolvedStruct {
                strukt: path,
                strukt_file_span: path_file_span,
            },
            PathResolutionResultKind::Trait => LowerErrorView::UnresolvedTrait {
                trt: path,
                trt_file_span: path_file_span,
            },
        },
    }
}

/// The report of the failure `failure` at the segment `segment` of a path
/// that is written at `path_span` in the file `file_id` and whose segments
/// have the texts `texts`: the path and the segment are written out, the
/// segment is placed, and the kind of the report is as `lower_error_model`
/// says. There is no report where the segment cannot be placed.
pub open spec fn rendered(
    failure: PathFailure,
    expected_kind: PathResolutionResultKind,
    file_id: FileId,
    path_span: Span,
    texts: Seq<Seq<char>>,
    segment: int,
) -> Option<LowerErrorView> {
    match placed(path_span.start, texts, segment) {
        Some(span) => Some(
            lower_error_model(
                failure,
                expected_kind,
                join_segments(texts),
                InFile { file_id, inner: path_span },
                texts[segment],
                InFile { file_id, inner: span },
            ),
        ),
        None => None,
    }
}

/// The path of an error, where it carries one.
pub open spec fn error_path(error: &ResolvePathError) -> Option<Spanned<Path>> {
    match error {
        ResolvePathError::EmptyPath { .. } => None,
        ResolvePathError::UnresolvedPath { path, .. } => Some(*path),
        ResolvePathError::PrivateModule { path, .. } => Some(*path),
    }
}

/// The span of the path that an error speaks of.
pub open spec fn error_span(error: &ResolvePathError) -> Span {
    match error {
        ResolvePathError::EmptyPath { path_span } => *path_span,
        ResolvePathError::UnresolvedPath { path, .. } => path.span,
        ResolvePathError::PrivateModule { path, .. } => path.span,
    }
}

/// The index of the segment that an error names; 0 where it names none.
pub open spec fn error_segment(error: &ResolvePathError) -> int {
    match error {
        ResolvePathError::EmptyPath { .. } => 0,
        ResolvePathError::UnresolvedPath { segment, .. } => *segment as int,
        ResolvePathError::PrivateModule { segment, .. } => *segment as int,
    }
}

/// Where the segment `idx` of `path` ends, counted from the start of the
/// file, going by the texts that `interner` holds for the path's segments.
pub open spec fn segment_end(interner: lasso::ThreadedRodeo, path: &Spanned<Path>, idx: int) -> int {
    let texts = segment_texts(interner, path.inner@.segments);
    path.span.start + segment_start(texts, idx) + width(texts[idx])
}

/// Where the segment `idx` of `path` stands, provided that its end can be
/// written as an offset: `segment_end` is no more than `u32::MAX`.
pub open spec fn segment_span(interner: lasso::ThreadedRodeo, path: &Spanned<Path>, idx: int) -> Span {
    let texts = segment_texts(interner, path.inner@.segments);
    Span {
        start: (path.span.start + segment_start(texts, idx)) as u32,
        end: segment_end(interner, path, idx) as u32,
    }
}

/// The texts joined by `::`.
pub fn join_texts(texts: &Vec<String>) -> (written: String)
    ensures
        written@ == join_segments(string_views(texts@)),
{
    let ghost views = string_views(texts@);
    let mut written = String::new();
    let mut i: usize = 0;
    while i < texts.len()
        invariant
            i <= texts.len(),
            views == string_views(texts@),
            written@ == join_segments(views.take(i as int)),
        decreases texts.len() - i,
    {
        proof {
            reveal_strlit("::");
            assert("::"@ =~= separator());
            assert(views.take(i + 1).drop_last() =~= views.take(i as int));
            assert(views.take(i + 1).last() == texts@[i as int]@);
        }
        if i > 0 {
            written.append("::");
        }
        written.append(texts[i].as_str());
        proof {
            if i == 0 {
                assert(written@ =~= texts@[0]@);
            }
        }
        i += 1;
    }
    proof {
        assert(views.take(texts.len() as int) =~= views);
    }
    written
}

/// Where the segment `idx` stands in a path that begins at the offset
/// `start` and whose segments have the texts `texts`: see `placed`.
pub fn place_segment(start: u32, texts: &Vec<String>, idx: usize) -> (span: Option<Span>)
    ensures
        span == placed(start, string_views(texts@), idx as int),
{
    if idx >= texts.len() {
        return None;
    }
    let ghost views = string_views(texts@);
    let mut begin: u32 = start;
    let mut i: usize = 0;
    while i < idx
        invariant
            i <= idx < texts.len(),
            views == string_views(texts@),
            begin == start + segment_start(views, i as int),
        decreases idx - i,
    {
        let len = texts[i].as_str().len();
        assert(len == width(views[i as int]));
        if len > (u32::MAX - 2) as usize || begin > u32::MAX - 2 - (len as u32) {
            proof {
                lemma_segment_start_grows(views, i + 1, idx as int);
            }
            return None;
        }
        begin = begin + len as u32 + 2;
        i += 1;
    }
    let len = texts[idx].as_str().len();
    assert(len == width(views[idx as int]));
    if len > u32::MAX as usize || begin > u32::MAX - (len as u32) {
        return None;
    }
    Some(Span { start: begin, end: begin + len as u32 })
}

/// The texts of the first `count` segments of `path`, in order, as
/// `interner` holds them. `None` where it does not know one of them.
pub fn segment_strings(path: &Path, count: usize, interner: &lasso::ThreadedRodeo) -> (texts:
    Option<Vec<String>>)
    requires
        count <= path@.segments.len(),
    ensures
        texts matches Some(found) ==> string_views(found@) == segment_texts(
            *interner,
            path@.segments,
        ).take(count as int),
        count == 0 ==> texts is Some,
{
    let ghost all = segment_texts(*interner, path@.segments);
    let mut found: Vec<String> = Vec::new();
    let mut i: usize = 0;
    assert(string_views(found@) =~= all.take(0));
    while i < count
        invariant
            i <= count <= path.segments.len(),
            all == segment_texts(*interner, path@.segments),
            string_views(found@) == all.take(i as int),
        decreases count - i,
    {
        let text = match word_text(interner, path.segments[i]) {
            Some(text) => text,
            None => {
                return None;
            },
        };
        let ghost before = string_views(found@);
        found.push(text);
        assert(string_views(found@) =~= before.push(text@));
        assert(all.take(i + 1) =~= all.take(i as int).push(all[i as int]));
        i += 1;
    }
    Some(found)
}

impl Path {
    /// The path as it is written: the texts of its segments, joined by `::`.
    /// `None` where `interner` does not know one of the segments.
    pub fn to_string(&self, interner: &lasso::ThreadedRodeo) -> (text: Option<String>)
        ensures
            text matches Some(written) ==> written@ == join_segments(
                segment_texts(*interner, self@.segments),
            ),
            self@.segments.len() == 0 ==> text is Some,
    {
        match segment_strings(self, self.segments.len(), interner) {
            Some(texts) => {
                proof {
                    let all = segment_texts(*interner, self@.segments);
                    assert(all.take(self@.segments.len() as int) =~= all);
                }
                Some(join_texts(&texts))
            },
            None => None,
        }
    }

    /// The segment at `idx` of `path` with the span it stands at, which is
    /// worked out from the span of the path and the widths of the segments
    /// before it. `None` where the path is not that long, where `interner`
    /// does not know a segment up to `idx`, or where the span would not fit.
    pub fn spanned_segment(
        path: &Spanned<Path>,
        idx: usize,
        interner: &lasso::ThreadedRodeo,
    ) -> (found: Option<Spanned<Word>>)
        ensures
            found matches Some(segment) ==> {
                &&& idx < path.inner@.segments.len()
                &&& segment.inner == path.inner@.segments[idx as int]
                &&& segment_end(*interner, path, idx as int) <= u32::MAX
                &&& segment.span == segment_span(*interner, path, idx as int)
            },
            idx >= path.inner@.segments.len() ==> found is None,
    {
        if idx >= path.inner.segments.len() {
            return None;
        }
        let texts = match segment_strings(&path.inner, idx + 1, interner) {
            Some(texts) => texts,
            None => {
                return None;
            },
        };
        proof {
            let all = segment_texts(*interner, path.inner@.segments);
            lemma_segment_start_of_prefix(all, idx + 1, idx as int);
        }
        match place_segment(path.span.start, &texts, idx) {
            Some(span) => Some(Spanned { inner: path.inner.segments[idx], span }),
            None => None,
        }
    }
}

/// Builds the report of a failed resolution from its parts: see `lower_error_model`.
pub fn lower_error_from(
    error: &ResolvePathError,
    expected_kind: PathResolutionResultKind,
    path: String,
    path_file_span: FileSpan,
    erroneous_segment: String,
    erroneous_segment_file_span: FileSpan,
) -> (report: LowerError)
    ensures
        report@ == lower_error_model(
            error.failure(),
            expected_kind,
            path@,
            path_file_span,
            erroneous_segment@,
            erroneous_segment_file_span,
        ),
{
    match error {
        ResolvePathError::EmptyPath { .. } => LowerError::CouldNotResolveEmptyPath {
            path_file_span,
        },
        ResolvePathError::PrivateModule { .. } => LowerError::CannotAccessPrivatePathSegment {
            path,
            path_file_span,
            erroneous_segment,
            erroneous_segment_file_span,
        },
        ResolvePathError::UnresolvedPath { .. } => match expected_kind {
            PathResolutionResultKind::Any => LowerError::CouldNotResolvePath {
                path,
                path_file_span,
                erroneous_segment,
                erroneous_segment_file_span,
            },
            PathResolutionResultKind::Type => LowerError::UnresolvedType {
                ty: path,
                ty_file_span: path_file_span,
            },
            PathResolutionResultKind::Use => LowerError::CouldNotResolvePath {
                path,
                path_file_span,
                erroneous_segment,
                erroneous_segment_file_span,
            },
            PathResolutionResultKind::Struct => LowerError::UnresolvedStruct {
                strukt: path,
                strukt_file_span: path_file_span,
            },
            PathResolutionResultKind::Trait => LowerError::UnresolvedTrait {
                trt: path,
                trt_file_span: path_file_span,
            },
        },
    }
}

/// Whether `report` reports `error`, which arose in the file `file_id`, with
/// the texts that `interner` holds: the path is written out, the segment at
/// fault is written out and placed, and the kind of the report is as
/// `lower_error_model` says.
pub open spec fn reports(
    report: LowerError,
    error: &ResolvePathError,
    file_id: FileId,
    interner: lasso::ThreadedRodeo,
    expected_kind: PathResolutionResultKind,
) -> bool {
    match error_path(error) {
        None => report@ == (LowerErrorView::CouldNotResolveEmptyPath {
            path_file_span: InFile { file_id, inner: error_span(error) },
        }),
        Some(path) => {
            let segment = error_segment(error);
            &&& 0 <= segment < path.inner@.segments.len()
            &&& segment_end(interner, &path, segment) <= u32::MAX
            &&& report@ == lower_error_model(
                error.failure(),
                expected_kind,
                join_segments(segment_texts(interner, path.inner@.segments)),
                InFile { file_id, inner: path.span },
                interned_text(interner, path.inner@.segments[segment]),
                InFile { file_id, inner: segment_span(interner, &path, segment) },
            )
        },
    }
}

impl ResolvePathError {
    /// The report of this error, for the file `file_id` it arose in.
    ///
    /// An empty path is always reported. Any other error is reported where
    /// `interner` knows the segments that have to be written out and the
    /// segment at fault can be placed; the report is then as `reports` says.
    pub fn to_lower_error(
        &self,
        file_id: FileId,
        string_interner: &lasso::ThreadedRodeo,
        expected_kind: PathResolutionResultKind,
    ) -> (report: Option<LowerError>)
        ensures
            report matches Some(made) ==> reports(
                made,
                self,
                file_id,
                *string_interner,
                expected_kind,
            ),
            self is EmptyPath ==> report is Some,
    {
        let (path, segment) = match self {
            ResolvePathError::EmptyPath { path_span } => {
                return Some(
                    LowerError::CouldNotResolveEmptyPath {
                        path_file_span: path_span.in_file(file_id),
                    },
                );
            },
            ResolvePathError::PrivateModule { path, segment } => (path, *segment),
            ResolvePathError::UnresolvedPath { path, segment } => (path, *segment),
        };
        let texts = match segment_strings(&path.inner, path.inner.segments.len(), string_interner) {
            Some(texts) => texts,
            None => {
                return None;
            },
        };
        proof {
            let all = segment_texts(*string_interner, path.inner@.segments);
            assert(all.take(path.inner@.segments.len() as int) =~= all);
        }
        render(self, path.span, segment, file_id, &texts, expected_kind)
    }
}

/// Writes the report of an error on the segment `segment` of a path that is
/// written at `path_span` and whose segments have the texts `texts`: see
/// `rendered`.
fn render(
    error: &ResolvePathError,
    path_span: Span,
    segment: usize,
    file_id: FileId,
    texts: &Vec<String>,
    expected_kind: PathResolutionResultKind,
) -> (report: Option<LowerError>)
    ensures
        match report {
            Some(made) => rendered(
                error.failure(),
                expected_kind,
                file_id,
                path_span,
                string_views(texts@),
                segment as int,
            ) == Some(made@),
            None => rendered(
                error.failure(),
                expected_kind,
                file_id,
                path_span,
                string_views(texts@),
                segment as int,
            ) is None,
        },
{
    let span = match place_segment(path_span.start, texts, segment) {
        Some(span) => span,
        None => {
            return None;
        },
    };
    let written = join_texts(texts);
    let erroneous_segment = texts[segment].clone();
    Some(
        lower_error_from(
            error,
            expected_kind,
            written,
            path_span.in_file(file_id),
            erroneous_segment,
            span.in_file(file_id),
        ),
    )
}

} // verus!

//! Working out the type of a `let` binding or of an expression.
//!
//! Finding what a name refers to needs the code completer's name resolution,
//! which reads the source files of a project.  That work is done outside this
//! library: the computations here are step machines.  Each step either asks one
//! question (`Query`) and waits for its answer (`Reply`), or ends with a result.
//! The contracts say, for every way of answering the questions (a `World`), that
//! the machine ends with what the computation that the spec functions describe
//! gives for those answers.
use vstd::prelude::*;

use vstd::string::StringSliceAdditionalSpecFns;
use vstd::utf8::{decode_utf8, encode_utf8, is_char_boundary};

use crate::extract::{stmt_type, try_parse_type};
use crate::parse::{parsed_stmt, string_to_stmt};
use crate::syntax_tree::{path_names, path_to_vec, type_path, type_to_path, ExprNode, PatNode, StmtNode};
use crate::visitors::copy_strings;

verus! {

broadcast use vstd::utf8::group_utf8_lib;

/// What kind of thing a match is.
#[derive(Clone, Copy, Debug, PartialEq, Eq, Structural)]
pub enum MatchType {
    Struct,
    Module,
    MatchArm,
    Function,
    Crate,
    Let,
    IfLet,
    StructField,
    Impl,
    Enum,
    EnumVariant,
    Type,
    FnArg,
    Trait,
    Const,
    Static,
}

/// A place in a source file that a name resolves to.
#[derive(Debug)]
pub struct Match {
    pub matchstr: String,
    pub filepath: String,
    /// Byte offset of the match in its file.
    pub point: usize,
    pub linetxt: String,
    pub local: bool,
    pub mtype: MatchType,
}

/// A match as plain values.
pub struct MatchView {
    pub matchstr: Seq<char>,
    pub filepath: Seq<char>,
    pub point: usize,
    pub linetxt: Seq<char>,
    pub local: bool,
    pub mtype: MatchType,
}

impl View for Match {
    type V = MatchView;

    open spec fn view(&self) -> MatchView {
        MatchView {
            matchstr: self.matchstr@,
            filepath: self.filepath@,
            point: self.point,
            linetxt: self.linetxt@,
            local: self.local,
            mtype: self.mtype,
        }
    }
}

impl Match {
    /// A copy of this match.
    pub fn duplicate(&self) -> (r: Match)
        ensures
            r@ == self@,
    {
        Match {
            matchstr: self.matchstr.clone(),
            filepath: self.filepath.clone(),
            point: self.point,
            linetxt: self.linetxt.clone(),
            local: self.local,
            mtype: self.mtype,
        }
    }
}

/// An optional match as plain values.
pub open spec fn opt_view(m: Option<Match>) -> Option<MatchView> {
    match m {
        Some(x) => Some(x@),
        None => None,
    }
}

/// Which names a path lookup considers.
#[derive(Clone, Copy, Debug, PartialEq, Eq, Structural)]
pub enum Namespace {
    /// Only type names.
    TypeNamespace,
    /// Type and value names.
    BothNamespaces,
}

/// A question for the code completer's name resolution.  Each names the function
/// that answers it and what its answer is; all lookups are exact-match lookups
/// and take the first result found.
pub enum Query {
    /// `nameres::resolve_name(name, filepath, pos, ExactMatch, BothNamespaces)`: a match.
    ResolveName { name: String, filepath: String, pos: usize },
    /// `nameres::search_next_scope(point, name, filepath, ExactMatch, false, BothNamespaces)`: a match.
    SearchNextScope { point: usize, name: String, filepath: String },
    /// `nameres::search_for_impls(point, name, filepath, local, false)`: all matches, in order.
    SearchForImpls { point: usize, name: String, filepath: String, local: bool },
    /// The text of a file, as it is on disk.
    ReadFile { filepath: String },
    /// `nameres::search_scope(point, src, name, filepath, ExactMatch, local, BothNamespaces)`: a match.
    SearchScope { point: usize, src: String, name: String, filepath: String, local: bool },
    /// `load_file_and_mask_comments(filepath)`: the text of a file with its comments masked.
    LoadMasked { filepath: String },
    /// `typeinf::get_type_of_match(m, src)`, with `src` the masked text of `m`'s file: a match.
    TypeOfMatch { m: Match, src: String },
    /// `typeinf::get_return_type_of_function(m)`: a path.
    ReturnType { m: Match },
    /// `nameres::resolve_path_with_str(fqn, filepath, pos, ExactMatch, ns)`: a match.
    ResolvePath { fqn: Vec<String>, filepath: String, pos: usize, ns: Namespace },
    /// `codeiter::iter_stmts(text)`: the byte range of the first statement, if any.
    FirstStmt { text: String },
    /// `nameres::search_for_impl_methods(matchstr, method, point, filepath, local, ExactMatch)`: a match.
    ImplMethod { matchstr: String, method: String, point: usize, filepath: String, local: bool },
    /// `typeinf::get_struct_field_type(field, m)`: a match.
    FieldType { field: String, m: Match },
}

/// A question as plain values.
pub enum QueryView {
    ResolveName(Seq<char>, Seq<char>, usize),
    SearchNextScope(usize, Seq<char>, Seq<char>),
    SearchForImpls(usize, Seq<char>, Seq<char>, bool),
    ReadFile(Seq<char>),
    SearchScope(usize, Seq<char>, Seq<char>, Seq<char>, bool),
    LoadMasked(Seq<char>),
    TypeOfMatch(MatchView, Seq<char>),
    ReturnType(MatchView),
    ResolvePath(Seq<Seq<char>>, Seq<char>, usize, Namespace),
    FirstStmt(Seq<char>),
    ImplMethod(Seq<char>, Seq<char>, usize, Seq<char>, bool),
    FieldType(Seq<char>, MatchView),
}

impl View for Query {
    type V = QueryView;

    open spec fn view(&self) -> QueryView {
        match self {
            Query::ResolveName { name, filepath, pos } => QueryView::ResolveName(name@, filepath@, *pos),
            Query::SearchNextScope { point, name, filepath } => QueryView::SearchNextScope(
                *point,
                name@,
                filepath@,
            ),
            Query::SearchForImpls { point, name, filepath, local } => QueryView::SearchForImpls(
                *point,
                name@,
                filepath@,
                *local,
            ),
            Query::ReadFile { filepath } => QueryView::ReadFile(filepath@),
            Query::SearchScope { point, src, name, filepath, local } => QueryView::SearchScope(
                *point,
                src@,
                name@,
                filepath@,
                *local,
            ),
            Query::LoadMasked { filepath } => QueryView::LoadMasked(filepath@),
            Query::TypeOfMatch { m, src } => QueryView::TypeOfMatch(m@, src@),
            Query::ReturnType { m } => QueryView::ReturnType(m@),
            Query::ResolvePath { fqn, filepath, pos, ns } => QueryView::ResolvePath(
                fqn.deep_view(),
                filepath@,
                *pos,
                *ns,
            ),
            Query::FirstStmt { text } => QueryView::FirstStmt(text@),
            Query::ImplMethod { matchstr, method, point, filepath, local } => QueryView::ImplMethod(
                matchstr@,
                method@,
                *point,
                filepath@,
                *local,
            ),
            Query::FieldType { field, m } => QueryView::FieldType(field@, m@),
        }
    }
}

/// An answer to a question.
pub enum Reply {
    Found(Option<Match>),
    Matches(Vec<Match>),
    Text(String),
    Path(Vec<String>),
    Range(Option<(usize, usize)>),
}

/// An answer as plain values.
pub enum ReplyView {
    Found(Option<MatchView>),
    Matches(Seq<MatchView>),
    Text(Seq<char>),
    Path(Seq<Seq<char>>),
    Range(Option<(usize, usize)>),
}

impl View for Reply {
    type V = ReplyView;

    open spec fn view(&self) -> ReplyView {
        match self {
            Reply::Found(m) => ReplyView::Found(opt_view(*m)),
            Reply::Matches(ms) => ReplyView::Matches(matches_view(ms@)),
            Reply::Text(t) => ReplyView::Text(t@),
            Reply::Path(p) => ReplyView::Path(p.deep_view()),
            Reply::Range(r) => ReplyView::Range(*r),
        }
    }
}

/// A list of matches as plain values.
pub open spec fn matches_view(ms: Seq<Match>) -> Seq<MatchView> {
    Seq::new(ms.len(), |i: int| ms[i]@)
}

/// The answers that the code completer gives, for every question.
pub type World = spec_fn(QueryView) -> ReplyView;

/// The match in an answer (none in an answer of another shape).
pub open spec fn as_match(r: ReplyView) -> Option<MatchView> {
    match r {
        ReplyView::Found(m) => m,
        _ => None,
    }
}

/// The matches in an answer.
pub open spec fn as_matches(r: ReplyView) -> Seq<MatchView> {
    match r {
        ReplyView::Matches(ms) => ms,
        _ => Seq::empty(),
    }
}

/// The text in an answer.
pub open spec fn as_text(r: ReplyView) -> Seq<char> {
    match r {
        ReplyView::Text(t) => t,
        _ => Seq::empty(),
    }
}

/// The path in an answer.
pub open spec fn as_path(r: ReplyView) -> Seq<Seq<char>> {
    match r {
        ReplyView::Path(p) => p,
        _ => Seq::empty(),
    }
}

/// The byte range in an answer.
pub open spec fn as_range(r: ReplyView) -> Option<(usize, usize)> {
    match r {
        ReplyView::Range(x) => x,
        _ => None,
    }
}

fn take_match(r: Reply) -> (m: Option<Match>)
    ensures
        opt_view(m) == as_match(r@),
{
    match r {
        Reply::Found(m) => m,
        _ => None,
    }
}

fn take_matches(r: Reply) -> (ms: Vec<Match>)
    ensures
        matches_view(ms@) == as_matches(r@),
{
    match r {
        Reply::Matches(ms) => ms,
        _ => {
            let v: Vec<Match> = Vec::new();
            assert(matches_view(v@) =~= Seq::<MatchView>::empty());
            v
        },
    }
}

fn take_text(r: Reply) -> (t: String)
    ensures
        t@ == as_text(r@),
{
    match r {
        Reply::Text(t) => t,
        _ => String::new(),
    }
}

fn take_path(r: Reply) -> (p: Vec<String>)
    ensures
        p.deep_view() == as_path(r@),
{
    match r {
        Reply::Path(p) => p,
        _ => {
            let v: Vec<String> = Vec::new();
            assert(v.deep_view() =~= Seq::<Seq<char>>::empty());
            v
        },
    }
}

fn take_range(r: Reply) -> (x: Option<(usize, usize)>)
    ensures
        x == as_range(r@),
{
    match r {
        Reply::Range(x) => x,
        _ => None,
    }
}

/// The first offset at or after `from` where `bytes` holds `{`.
pub open spec fn first_brace_from(bytes: Seq<u8>, from: int) -> Option<int>
    decreases bytes.len() - from,
{
    if from < 0 || from >= bytes.len() {
        None
    } else if bytes[from] == 123u8 {
        Some(from)
    } else {
        first_brace_from(bytes, from + 1)
    }
}

/// Where to search an impl whose text is `text` and which starts at byte `point`:
/// just after the first `{` from `point` on.  `None` when `point` is not a
/// character boundary of the text (slicing the text there panics);
/// `Some(None)` when there is no `{`.
pub open spec fn impl_body_start(text: Seq<char>, point: usize) -> Option<Option<usize>> {
    let bytes = encode_utf8(text);
    if !is_char_boundary(bytes, point as int) {
        None
    } else {
        match first_brace_from(bytes, point as int) {
            Some(j) => Some(Some((j + 1) as usize)),
            None => Some(None),
        }
    }
}

/// See `impl_body_start`.
pub fn find_impl_body_start(text: &String, point: usize) -> (r: Option<Option<usize>>)
    ensures
        r == impl_body_start(text@, point),
{
    let s = text.as_str();
    if !s.is_char_boundary(point) {
        return None;
    }
    let bytes = s.as_bytes();
    let n = bytes.len();
    let mut j = point;
    assert(bytes@ == encode_utf8(text@));
    while j < n
        invariant
            bytes@ == encode_utf8(text@),
            n == bytes@.len(),
            point <= j,
            is_char_boundary(encode_utf8(text@), point as int),
            first_brace_from(bytes@, point as int) == first_brace_from(bytes@, j as int),
        decreases n - j,
    {
        if bytes[j] == 123u8 {
            assert(first_brace_from(bytes@, j as int) == Some(j as int));
            return Some(Some(j + 1));
        }
        j = j + 1;
    }
    Some(None)
}

/// The text of bytes `a..b` of `text`, where `a` is a character boundary of the
/// text and `b - a` one of the text after `a` (otherwise slicing the text
/// panics, and this gives nothing).
pub open spec fn byte_slice(text: Seq<char>, a: int, b: int) -> Option<Seq<char>> {
    let bytes = encode_utf8(text);
    if a <= b && is_char_boundary(bytes, a) && is_char_boundary(
        bytes.subrange(a, bytes.len() as int),
        b - a,
    ) {
        Some(decode_utf8(bytes.subrange(a, b)))
    } else {
        None
    }
}

/// See `byte_slice`.
pub fn slice_bytes(text: &String, a: usize, b: usize) -> (r: Option<String>)
    ensures
        opt_text(r) == byte_slice(text@, a as int, b as int),
{
    let s = text.as_str();
    if a > b || !s.is_char_boundary(a) {
        return None;
    }
    let (_, rest) = s.split_at(a);
    if !rest.is_char_boundary(b - a) {
        return None;
    }
    let (mid, _) = rest.split_at(b - a);
    let r = mid.to_owned();
    proof {
        let bytes = encode_utf8(text@);
        assert(mid.spec_bytes() =~= bytes.subrange(a as int, b as int));
        assert(decode_utf8(encode_utf8(mid@)) == mid@);
    }
    Some(r)
}

/// The text from byte `a` of `text` on, where `a` is a character boundary of it.
pub open spec fn byte_suffix(text: Seq<char>, a: int) -> Option<Seq<char>> {
    let bytes = encode_utf8(text);
    if is_char_boundary(bytes, a) {
        Some(decode_utf8(bytes.subrange(a, bytes.len() as int)))
    } else {
        None
    }
}

/// See `byte_suffix`.
pub fn slice_bytes_from(text: &String, a: usize) -> (r: Option<String>)
    ensures
        opt_text(r) == byte_suffix(text@, a as int),
{
    let s = text.as_str();
    if !s.is_char_boundary(a) {
        return None;
    }
    let (_, rest) = s.split_at(a);
    let r = rest.to_owned();
    proof {
        assert(decode_utf8(encode_utf8(rest@)) == rest@);
    }
    Some(r)
}

/// An optional text as plain values.
pub open spec fn opt_text(t: Option<String>) -> Option<Seq<char>> {
    match t {
        Some(s) => Some(s@),
        None => None,
    }
}

/// What a computation ends with: `None` where it fails (a slice of a text out of
/// bounds, a text that does not parse), otherwise the match found, if any.
pub type Outcome = Option<Option<MatchView>>;

/// How a machine goes on after a step.
pub enum Step {
    /// Wait for the answer to this question.
    Ask(Query),
    /// End with this result.
    Done(Option<Match>),
    /// End with a failure.
    Failed,
}

/// What a step that ends the machine ends with (`None` for a step that asks).
pub open spec fn step_end(s: Step) -> Option<Outcome> {
    match s {
        Step::Ask(_) => None,
        Step::Done(r) => Some(Some(opt_view(r))),
        Step::Failed => Some(None),
    }
}

/// `typeinf::get_type_of_match` on the match `m`, after loading its file.
pub open spec fn type_of_match_spec(m: MatchView, w: World) -> Outcome {
    Some(as_match(w(QueryView::TypeOfMatch(m, as_text(w(QueryView::LoadMasked(m.filepath)))))))
}

/// The match of the path `fqn` looked up in every namespace from `fp` at `pos`.
pub open spec fn find_match_spec(fqn: Seq<Seq<char>>, fp: Seq<char>, pos: usize, w: World) -> Option<MatchView> {
    as_match(w(QueryView::ResolvePath(fqn, fp, pos, Namespace::BothNamespaces)))
}

/// The type of what the path `fqn` names, looked up from `fp` at `pos`.
pub open spec fn get_type_of_path_spec(fqn: Seq<Seq<char>>, fp: Seq<char>, pos: usize, w: World) -> Outcome {
    match find_match_spec(fqn, fp, pos, w) {
        None => Some(None),
        Some(m) => type_of_match_spec(m, w),
    }
}

/// The type named by the path `fqn` looked up among type names from `fp` at
/// `pos`; a type alias is followed to the type it names.
pub open spec fn find_type_match_spec(fqn: Seq<Seq<char>>, fp: Seq<char>, pos: usize, w: World) -> Outcome {
    type_match_after(as_match(w(QueryView::ResolvePath(fqn, fp, pos, Namespace::TypeNamespace))), w)
}

/// See `find_type_match_spec`: what follows the lookup.
pub open spec fn type_match_after(r: Option<MatchView>, w: World) -> Outcome {
    match r {
        None => Some(None),
        Some(m) => if m.mtype == MatchType::Type {
            typedef_spec(m, w)
        } else {
            Some(Some(m))
        },
    }
}

/// The type that the alias at `m` names: its `type` item starts five bytes before
/// `m.point`; the first statement there is parsed and its type path looked up.
pub open spec fn typedef_spec(m: MatchView, w: World) -> Outcome {
    typedef_with_text(m, as_text(w(QueryView::LoadMasked(m.filepath))), w)
}

/// Where the alias item starts, and the text from there on.
pub open spec fn typedef_blob(text: Seq<char>, point: usize) -> Option<(usize, Seq<char>)> {
    if point < 5 {
        None
    } else {
        let bs = (point - 5) as usize;
        match byte_suffix(text, bs as int) {
            Some(blob) => Some((bs, blob)),
            None => None,
        }
    }
}

/// See `typedef_spec`: what follows loading the file's text.
pub open spec fn typedef_with_text(m: MatchView, text: Seq<char>, w: World) -> Outcome {
    match typedef_blob(text, m.point) {
        None => None,
        Some((bs, blob)) => typedef_with_range(m, text, bs, as_range(w(QueryView::FirstStmt(blob))), w),
    }
}

/// The type path of the alias statement at bytes `bs + s .. bs + e` of `text`.
pub open spec fn typedef_path(text: Seq<char>, bs: usize, s: usize, e: usize) -> Option<Seq<Seq<char>>> {
    if bs + e > usize::MAX {
        None
    } else {
        match byte_slice(text, bs + s, bs + e) {
            None => None,
            Some(snippet) => match parsed_stmt(snippet) {
                None => None,
                Some(st) => Some(stmt_type(st).1),
            },
        }
    }
}

/// See `typedef_spec`: what follows finding the first statement.
pub open spec fn typedef_with_range(
    m: MatchView,
    text: Seq<char>,
    bs: usize,
    r: Option<(usize, usize)>,
    w: World,
) -> Outcome {
    match r {
        None => Some(None),
        Some((s, e)) => match typedef_path(text, bs, s, e) {
            None => None,
            Some(fqn) => Some(
                as_match(w(QueryView::ResolvePath(fqn, m.filepath, m.point, Namespace::TypeNamespace))),
            ),
        },
    }
}

fn placeholder_match() -> (m: Match)
    ensures
        m@ == (MatchView {
            matchstr: Seq::empty(),
            filepath: Seq::empty(),
            point: 0,
            linetxt: Seq::empty(),
            local: false,
            mtype: MatchType::Type,
        }),
{
    Match {
        matchstr: String::new(),
        filepath: String::new(),
        point: 0,
        linetxt: String::new(),
        local: false,
        mtype: MatchType::Type,
    }
}

/// The state of a lookup of a type path.
pub enum TypeMatchPhase {
    Resolving { fqn: Vec<String>, filepath: String, pos: usize },
    LoadingTypedef { m: Match },
    FindingStmt { m: Match, text: String, blobstart: usize, blob: String },
    ResolvingTypedef { fqn: Vec<String>, m: Match },
}

/// A lookup of a type path, following type aliases.
pub struct TypeMatchTask {
    pub phase: TypeMatchPhase,
}

impl TypeMatchTask {
    /// The question that the lookup waits on.
    pub open spec fn pending(&self) -> QueryView {
        match self.phase {
            TypeMatchPhase::Resolving { fqn, filepath, pos } => QueryView::ResolvePath(
                fqn.deep_view(),
                filepath@,
                pos,
                Namespace::TypeNamespace,
            ),
            TypeMatchPhase::LoadingTypedef { m } => QueryView::LoadMasked(m.filepath@),
            TypeMatchPhase::FindingStmt { blob, .. } => QueryView::FirstStmt(blob@),
            TypeMatchPhase::ResolvingTypedef { fqn, m } => QueryView::ResolvePath(
                fqn.deep_view(),
                m.filepath@,
                m.point,
                Namespace::TypeNamespace,
            ),
        }
    }

    /// What the lookup ends with, from here on, when questions are answered by `w`.
    pub open spec fn outcome(&self, w: World) -> Outcome {
        match self.phase {
            TypeMatchPhase::Resolving { fqn, filepath, pos } => find_type_match_spec(
                fqn.deep_view(),
                filepath@,
                pos,
                w,
            ),
            TypeMatchPhase::LoadingTypedef { m } => typedef_spec(m@, w),
            TypeMatchPhase::FindingStmt { m, text, blobstart, blob } => typedef_with_range(
                m@,
                text@,
                blobstart,
                as_range(w(QueryView::FirstStmt(blob@))),
                w,
            ),
            TypeMatchPhase::ResolvingTypedef { fqn, m } => Some(as_match(w(self.pending()))),
        }
    }

    /// The question that the lookup waits on.
    pub fn query(&self) -> (q: Query)
        ensures
            q@ == self.pending(),
    {
        match &self.phase {
            TypeMatchPhase::Resolving { fqn, filepath, pos } => Query::ResolvePath {
                fqn: copy_strings(fqn),
                filepath: filepath.clone(),
                pos: *pos,
                ns: Namespace::TypeNamespace,
            },
            TypeMatchPhase::LoadingTypedef { m } => Query::LoadMasked { filepath: m.filepath.clone() },
            TypeMatchPhase::FindingStmt { blob, .. } => Query::FirstStmt { text: blob.clone() },
            TypeMatchPhase::ResolvingTypedef { fqn, m } => Query::ResolvePath {
                fqn: copy_strings(fqn),
                filepath: m.filepath.clone(),
                pos: m.point,
                ns: Namespace::TypeNamespace,
            },
        }
    }

    /// Starts looking up `fqn` among type names from `filepath` at `pos`.
    pub fn start(fqn: Vec<String>, filepath: String, pos: usize) -> (t: TypeMatchTask)
        ensures
            forall|w: World| #[trigger] t.outcome(w) == find_type_match_spec(fqn.deep_view(), filepath@, pos, w),
    {
        TypeMatchTask { phase: TypeMatchPhase::Resolving { fqn, filepath, pos } }
    }

    /// Takes the answer to the pending question and goes on.
    pub fn resume(&mut self, reply: Reply) -> (s: Step)
        ensures
            s matches Step::Ask(q) ==> q@ == final(self).pending(),
            forall|w: World|
                w(old(self).pending()) == reply@ ==> #[trigger] old(self).outcome(w) == match step_end(s) {
                    Some(o) => o,
                    None => final(self).outcome(w),
                },
    {
        let ghost old_self = *self;
        let ghost rv = reply@;
        let mut phase = TypeMatchPhase::LoadingTypedef { m: placeholder_match() };
        std::mem::swap(&mut phase, &mut self.phase);
        assert(phase == old_self.phase);
        match phase {
            TypeMatchPhase::Resolving { .. } => {
                match take_match(reply) {
                    None => Step::Done(None),
                    Some(m) => match m.mtype {
                        MatchType::Type => {
                            self.phase = TypeMatchPhase::LoadingTypedef { m };
                            Step::Ask(self.query())
                        },
                        _ => Step::Done(Some(m)),
                    },
                }
            },
            TypeMatchPhase::LoadingTypedef { m } => {
                let text = take_text(reply);
                if m.point < 5 {
                    assert forall|w: World| w(old_self.pending()) == rv implies #[trigger] old_self.outcome(w) is None by {
                        assert(typedef_blob(text@, m.point) is None);
                    }
                    return Step::Failed;
                }
                let bs = m.point - 5;
                match slice_bytes_from(&text, bs) {
                    None => {
                        assert forall|w: World| w(old_self.pending()) == rv implies #[trigger] old_self.outcome(w) is None by {
                            assert(typedef_blob(text@, m.point) is None);
                        }
                        Step::Failed
                    },
                    Some(blob) => {
                        let ghost gm = m@;
                        let ghost gt = text@;
                        let ghost gb = blob@;
                        self.phase = TypeMatchPhase::FindingStmt { m, text, blobstart: bs, blob };
                        assert forall|w: World| w(old_self.pending()) == rv implies #[trigger] old_self.outcome(w) == self.outcome(w) by {
                            assert(typedef_blob(gt, gm.point) == Some((bs, gb)));
                        }
                        Step::Ask(self.query())
                    },
                }
            },
            TypeMatchPhase::FindingStmt { m, text, blobstart, blob } => {
                match take_range(reply) {
                    None => Step::Done(None),
                    Some((s, e)) => {
                        if s > e || e > usize::MAX - blobstart {
                            assert forall|w: World| w(old_self.pending()) == rv implies #[trigger] old_self.outcome(w) is None by {
                                assert(typedef_path(text@, blobstart, s, e) is None);
                            }
                            return Step::Failed;
                        }
                        match slice_bytes(&text, blobstart + s, blobstart + e) {
                            None => {
                                assert forall|w: World| w(old_self.pending()) == rv implies #[trigger] old_self.outcome(w) is None by {
                                    assert(typedef_path(text@, blobstart, s, e) is None);
                                }
                                Step::Failed
                            },
                            Some(snippet) => {
                                let ghost gs = snippet@;
                                match try_parse_type(snippet) {
                                    None => {
                                        assert forall|w: World| w(old_self.pending()) == rv implies #[trigger] old_self.outcome(w) is None by {
                                            assert(typedef_path(text@, blobstart, s, e) is None);
                                        }
                                        Step::Failed
                                    },
                                    Some(tv) => {
                                        let ghost fq = tv.type_.deep_view();
                                        assert(typedef_path(text@, blobstart, s, e) == Some(fq));
                                        self.phase = TypeMatchPhase::ResolvingTypedef { fqn: tv.type_, m };
                                        Step::Ask(self.query())
                                    },
                                }
                            },
                        }
                    },
                }
            },
            TypeMatchPhase::ResolvingTypedef { .. } => Step::Done(take_match(reply)),
        }
    }
}

/// The state of `typeinf::get_type_of_match` on a match: loading its file, then
/// asking for the type.
pub enum TypeOfMatchPhase {
    Loading,
    Typing { src: String },
}

/// The type of what a match is (`typeinf::get_type_of_match` after loading the
/// match's file with its comments masked).
pub struct TypeOfMatchTask {
    pub m: Match,
    pub phase: TypeOfMatchPhase,
}

impl TypeOfMatchTask {
    /// The question that the task waits on.
    pub open spec fn pending(&self) -> QueryView {
        match self.phase {
            TypeOfMatchPhase::Loading => QueryView::LoadMasked(self.m.filepath@),
            TypeOfMatchPhase::Typing { src } => QueryView::TypeOfMatch(self.m@, src@),
        }
    }

    /// What the task ends with, from here on, when questions are answered by `w`.
    pub open spec fn outcome(&self, w: World) -> Outcome {
        match self.phase {
            TypeOfMatchPhase::Loading => type_of_match_spec(self.m@, w),
            TypeOfMatchPhase::Typing { src } => Some(as_match(w(self.pending()))),
        }
    }

    /// The question that the task waits on.
    pub fn query(&self) -> (q: Query)
        ensures
            q@ == self.pending(),
    {
        match &self.phase {
            TypeOfMatchPhase::Loading => Query::LoadMasked { filepath: self.m.filepath.clone() },
            TypeOfMatchPhase::Typing { src } => Query::TypeOfMatch { m: self.m.duplicate(), src: src.clone() },
        }
    }

    /// Starts working out the type of what `m` is.
    pub fn start(m: Match) -> (t: TypeOfMatchTask)
        ensures
            forall|w: World| #[trigger] t.outcome(w) == type_of_match_spec(m@, w),
    {
        TypeOfMatchTask { m, phase: TypeOfMatchPhase::Loading }
    }

    /// Takes the answer to the pending question and goes on.
    pub fn resume(&mut self, reply: Reply) -> (s: Step)
        ensures
            s matches Step::Ask(q) ==> q@ == final(self).pending(),
            forall|w: World|
                w(old(self).pending()) == reply@ ==> #[trigger] old(self).outcome(w) == match step_end(s) {
                    Some(o) => o,
                    None => final(self).outcome(w),
                },
    {
        match &self.phase {
            TypeOfMatchPhase::Loading => {
                let src = take_text(reply);
                self.phase = TypeOfMatchPhase::Typing { src };
                Step::Ask(self.query())
            },
            TypeOfMatchPhase::Typing { .. } => Step::Done(take_match(reply)),
        }
    }
}

/// The state of working out the type of what a path names: finding what the path names, then its type.
pub enum PathTypePhase {
    Finding { fqn: Vec<String>, filepath: String, pos: usize },
    Typing(TypeOfMatchTask),
}

/// The type of what a path names.
pub struct PathTypeTask {
    pub phase: PathTypePhase,
}

impl PathTypeTask {
    /// The question that the task waits on.
    pub open spec fn pending(&self) -> QueryView {
        match self.phase {
            PathTypePhase::Finding { fqn, filepath, pos } => QueryView::ResolvePath(
                fqn.deep_view(),
                filepath@,
                pos,
                Namespace::BothNamespaces,
            ),
            PathTypePhase::Typing(t) => t.pending(),
        }
    }

    /// What the task ends with, from here on, when questions are answered by `w`.
    pub open spec fn outcome(&self, w: World) -> Outcome {
        match self.phase {
            PathTypePhase::Finding { fqn, filepath, pos } => get_type_of_path_spec(
                fqn.deep_view(),
                filepath@,
                pos,
                w,
            ),
            PathTypePhase::Typing(t) => t.outcome(w),
        }
    }

    /// The question that the task waits on.
    pub fn query(&self) -> (q: Query)
        ensures
            q@ == self.pending(),
    {
        match &self.phase {
            PathTypePhase::Finding { fqn, filepath, pos } => Query::ResolvePath {
                fqn: copy_strings(fqn),
                filepath: filepath.clone(),
                pos: *pos,
                ns: Namespace::BothNamespaces,
            },
            PathTypePhase::Typing(t) => t.query(),
        }
    }

    /// Starts working out the type of what `fqn` names, looked up from
    /// `filepath` at `pos`.
    pub fn start(fqn: Vec<String>, filepath: String, pos: usize) -> (t: PathTypeTask)
        ensures
            forall|w: World| #[trigger] t.outcome(w) == get_type_of_path_spec(fqn.deep_view(), filepath@, pos, w),
    {
        PathTypeTask { phase: PathTypePhase::Finding { fqn, filepath, pos } }
    }

    /// Takes the answer to the pending question and goes on.
    pub fn resume(&mut self, reply: Reply) -> (s: Step)
        ensures
            s matches Step::Ask(q) ==> q@ == final(self).pending(),
            forall|w: World|
                w(old(self).pending()) == reply@ ==> #[trigger] old(self).outcome(w) == match step_end(s) {
                    Some(o) => o,
                    None => final(self).outcome(w),
                },
    {
        match &mut self.phase {
            PathTypePhase::Finding { .. } => {
                match take_match(reply) {
                    None => Step::Done(None),
                    Some(m) => {
                        let t = TypeOfMatchTask::start(m);
                        self.phase = PathTypePhase::Typing(t);
                        Step::Ask(self.query())
                    },
                }
            },
            PathTypePhase::Typing(t) => t.resume(reply),
        }
    }
}

/// What the path with segment names `segs` refers to, looked up from `fp` at
/// `pos`: the first name is resolved; each further name is
/// looked up in what the path so far refers to, a module or the impls of a struct.
pub open spec fn resolve_ast_path_spec(segs: Seq<Seq<char>>, fp: Seq<char>, pos: usize, w: World) -> Outcome {
    if segs.len() == 0 {
        None
    } else {
        resolve_segments(segs, 1, as_match(w(QueryView::ResolveName(segs[0], fp, pos))), w)
    }
}

/// See `resolve_ast_path_spec`: the names from `idx` on, with `ctx` what the
/// names before refer to.  A name that is not found in a module leaves `ctx` as
/// it is; anything but a module or a struct ends the lookup with nothing.
pub open spec fn resolve_segments(segs: Seq<Seq<char>>, idx: nat, ctx: Option<MatchView>, w: World) -> Outcome
    decreases segs.len() - idx,
{
    if idx >= segs.len() {
        Some(ctx)
    } else {
        match ctx {
            None => Some(None),
            Some(m) => {
                if m.mtype == MatchType::Module {
                    let r = as_match(w(QueryView::SearchNextScope(m.point, segs[idx as int], m.filepath)));
                    resolve_segments(segs, idx + 1, if r is Some { r } else { ctx }, w)
                } else if m.mtype == MatchType::Struct {
                    let impls = as_matches(w(QueryView::SearchForImpls(m.point, m.matchstr, m.filepath, m.local)));
                    match search_impls(impls, 0, segs[idx as int], ctx, w) {
                        None => None,
                        Some(c) => resolve_segments(segs, idx + 1, c, w),
                    }
                } else {
                    Some(None)
                }
            },
        }
    }
}

/// The last match of `name` found in the bodies of the impls `impls[k..]`, or
/// `ctx` where none is found: each impl's file is read and searched from just
/// after the first `{` at or after the impl.
pub open spec fn search_impls(impls: Seq<MatchView>, k: nat, name: Seq<char>, ctx: Option<MatchView>, w: World) -> Option<Option<MatchView>>
    decreases impls.len() - k,
{
    if k >= impls.len() {
        Some(ctx)
    } else {
        let im = impls[k as int];
        let text = as_text(w(QueryView::ReadFile(im.filepath)));
        match impl_body_start(text, im.point) {
            None => None,
            Some(None) => search_impls(impls, k + 1, name, ctx, w),
            Some(Some(p)) => {
                let r = as_match(w(QueryView::SearchScope(p, text, name, im.filepath, im.local)));
                search_impls(impls, k + 1, name, if r is Some { r } else { ctx }, w)
            },
        }
    }
}

/// The state of a path lookup.
pub enum PathPhase {
    /// Resolving the first name.
    Naming { filepath: String, pos: usize },
    /// Looking the name at `idx` up in the module `m`.
    NextScope { m: Match },
    /// Finding the impls of the struct `m`.
    Impls { m: Match },
    /// Reading the file of impl `k`.
    ReadingImpl { impls: Vec<Match>, k: usize, ctx: Option<Match> },
    /// Searching the body of impl `k`, whose file is `text`, from byte `point`.
    SearchingImpl { impls: Vec<Match>, k: usize, ctx: Option<Match>, text: String, point: usize },
}

/// A lookup of what a path refers to.
pub struct PathTask {
    pub segs: Vec<String>,
    pub idx: usize,
    pub phase: PathPhase,
}

impl PathTask {
    /// The indices are in range.
    pub open spec fn wf(&self) -> bool {
        match self.phase {
            PathPhase::Naming { .. } => self.segs@.len() > 0,
            PathPhase::NextScope { .. } => self.idx < self.segs@.len(),
            PathPhase::Impls { .. } => self.idx < self.segs@.len(),
            PathPhase::ReadingImpl { impls, k, .. } => self.idx < self.segs@.len() && k < impls@.len(),
            PathPhase::SearchingImpl { impls, k, .. } => self.idx < self.segs@.len() && k < impls@.len(),
        }
    }

    /// The name being looked up.
    pub open spec fn name(&self) -> Seq<char> {
        self.segs@[self.idx as int]@
    }

    /// The question that the lookup waits on.
    pub open spec fn pending(&self) -> QueryView {
        match self.phase {
            PathPhase::Naming { filepath, pos } => QueryView::ResolveName(self.segs@[0]@, filepath@, pos),
            PathPhase::NextScope { m } => QueryView::SearchNextScope(m.point, self.name(), m.filepath@),
            PathPhase::Impls { m } => QueryView::SearchForImpls(m.point, m.matchstr@, m.filepath@, m.local),
            PathPhase::ReadingImpl { impls, k, .. } => QueryView::ReadFile(impls@[k as int].filepath@),
            PathPhase::SearchingImpl { impls, k, text, point, .. } => QueryView::SearchScope(
                point,
                text@,
                self.name(),
                impls@[k as int].filepath@,
                impls@[k as int].local,
            ),
        }
    }

    /// What follows the search of the impls for the name at `idx`.
    pub open spec fn after_impls(&self, o: Option<Option<MatchView>>, w: World) -> Outcome {
        match o {
            None => None,
            Some(c) => resolve_segments(self.segs.deep_view(), (self.idx + 1) as nat, c, w),
        }
    }

    /// What the lookup ends with, from here on, when questions are answered by `w`.
    pub open spec fn outcome(&self, w: World) -> Outcome {
        let segs = self.segs.deep_view();
        match self.phase {
            PathPhase::Naming { .. } => resolve_segments(segs, 1, as_match(w(self.pending())), w),
            PathPhase::NextScope { m } => {
                let r = as_match(w(self.pending()));
                resolve_segments(segs, (self.idx + 1) as nat, if r is Some { r } else { Some(m@) }, w)
            },
            PathPhase::Impls { m } => self.after_impls(
                search_impls(as_matches(w(self.pending())), 0, self.name(), Some(m@), w),
                w,
            ),
            PathPhase::ReadingImpl { impls, k, ctx } => self.after_impls(
                search_impls(matches_view(impls@), k as nat, self.name(), opt_view(ctx), w),
                w,
            ),
            PathPhase::SearchingImpl { impls, k, ctx, text, point } => {
                let r = as_match(w(self.pending()));
                self.after_impls(
                    search_impls(
                        matches_view(impls@),
                        (k + 1) as nat,
                        self.name(),
                        if r is Some { r } else { opt_view(ctx) },
                        w,
                    ),
                    w,
                )
            },
        }
    }

    /// The question that the lookup waits on.
    pub fn query(&self) -> (q: Query)
        requires
            self.wf(),
        ensures
            q@ == self.pending(),
    {
        match &self.phase {
            PathPhase::Naming { filepath, pos } => Query::ResolveName {
                name: self.segs[0].clone(),
                filepath: filepath.clone(),
                pos: *pos,
            },
            PathPhase::NextScope { m } => Query::SearchNextScope {
                point: m.point,
                name: self.segs[self.idx].clone(),
                filepath: m.filepath.clone(),
            },
            PathPhase::Impls { m } => Query::SearchForImpls {
                point: m.point,
                name: m.matchstr.clone(),
                filepath: m.filepath.clone(),
                local: m.local,
            },
            PathPhase::ReadingImpl { impls, k, .. } => Query::ReadFile { filepath: impls[*k].filepath.clone() },
            PathPhase::SearchingImpl { impls, k, text, point, .. } => Query::SearchScope {
                point: *point,
                src: text.clone(),
                name: self.segs[self.idx].clone(),
                filepath: impls[*k].filepath.clone(),
                local: impls[*k].local,
            },
        }
    }

    /// Goes on from the name at `idx`, with `ctx` what the names before refer to.
    fn advance(&mut self, ctx: Option<Match>) -> (s: Step)
        ensures
            final(self).segs == old(self).segs,
            s matches Step::Ask(q) ==> final(self).wf() && q@ == final(self).pending(),
            forall|w: World| #[trigger] resolve_segments(old(self).segs.deep_view(), old(self).idx as nat, opt_view(ctx), w)
                == match step_end(s) {
                    Some(o) => o,
                    None => final(self).outcome(w),
                },
    {
        if self.idx >= self.segs.len() {
            return Step::Done(ctx);
        }
        match ctx {
            None => Step::Done(None),
            Some(m) => match m.mtype {
                MatchType::Module => {
                    self.phase = PathPhase::NextScope { m };
                    Step::Ask(self.query())
                },
                MatchType::Struct => {
                    self.phase = PathPhase::Impls { m };
                    Step::Ask(self.query())
                },
                _ => Step::Done(None),
            },
        }
    }

    /// Goes on from impl `k` of `impls`, with `ctx` what has been found so far.
    fn advance_impls(&mut self, impls: Vec<Match>, k: usize, ctx: Option<Match>) -> (s: Step)
        requires
            old(self).idx < old(self).segs@.len(),
        ensures
            final(self).segs == old(self).segs,
            s matches Step::Ask(q) ==> final(self).wf() && q@ == final(self).pending(),
            forall|w: World| #[trigger] old(self).after_impls(
                search_impls(matches_view(impls@), k as nat, old(self).name(), opt_view(ctx), w),
                w,
            ) == match step_end(s) {
                Some(o) => o,
                None => final(self).outcome(w),
            },
    {
        let nsegs = self.segs.len();
        if k >= impls.len() {
            self.idx = self.idx + 1;
            self.advance(ctx)
        } else {
            self.phase = PathPhase::ReadingImpl { impls, k, ctx };
            Step::Ask(self.query())
        }
    }

    /// Starts looking up the path with segment names `segs` from `filepath` at `pos`.
    pub fn start(segs: Vec<String>, filepath: String, pos: usize) -> (r: (PathTask, Step))
        ensures
            r.1 matches Step::Ask(q) ==> r.0.wf() && q@ == r.0.pending(),
            forall|w: World| #[trigger] resolve_ast_path_spec(segs.deep_view(), filepath@, pos, w)
                == match step_end(r.1) {
                    Some(o) => o,
                    None => r.0.outcome(w),
                },
    {
        let empty = segs.len() == 0;
        let t = PathTask { segs, idx: 1, phase: PathPhase::Naming { filepath, pos } };
        if empty {
            (t, Step::Failed)
        } else {
            let q = t.query();
            (t, Step::Ask(q))
        }
    }

    /// Takes the answer to the pending question and goes on.
    pub fn resume(&mut self, reply: Reply) -> (s: Step)
        requires
            old(self).wf(),
        ensures
            s matches Step::Ask(q) ==> final(self).wf() && q@ == final(self).pending(),
            forall|w: World|
                w(old(self).pending()) == reply@ ==> #[trigger] old(self).outcome(w) == match step_end(s) {
                    Some(o) => o,
                    None => final(self).outcome(w),
                },
    {
        let ghost old_self = *self;
        let ghost rv = reply@;
        let mut phase = PathPhase::Naming { filepath: String::new(), pos: 0 };
        std::mem::swap(&mut phase, &mut self.phase);
        assert(phase == old_self.phase);
        match phase {
            PathPhase::Naming { .. } => {
                let r = take_match(reply);
                self.idx = 1;
                let ghost gr = opt_view(r);
                let ghost mid = *self;
                let s = self.advance(r);
                assert forall|w: World| w(old_self.pending()) == rv implies #[trigger] old_self.outcome(w) == match step_end(s) {
                    Some(o) => o,
                    None => self.outcome(w),
                } by {
                    assert(as_match(w(old_self.pending())) == gr);
                    assert(old_self.outcome(w) == resolve_segments(mid.segs.deep_view(), 1, gr, w));
                }
                s
            },
            PathPhase::NextScope { m } => {
                let nsegs = self.segs.len();
                let r = take_match(reply);
                let ctx = if r.is_some() { r } else { Some(m) };
                self.idx = self.idx + 1;
                let ghost gc = opt_view(ctx);
                let ghost mid = *self;
                let s = self.advance(ctx);
                assert forall|w: World| w(old_self.pending()) == rv implies #[trigger] old_self.outcome(w) == match step_end(s) {
                    Some(o) => o,
                    None => self.outcome(w),
                } by {
                    assert(old_self.outcome(w) == resolve_segments(mid.segs.deep_view(), mid.idx as nat, gc, w));
                }
                s
            },
            PathPhase::Impls { m } => {
                let impls = take_matches(reply);
                let ghost gi = matches_view(impls@);
                let ghost gm = m@;
                let ghost mid = *self;
                let s = self.advance_impls(impls, 0, Some(m));
                assert forall|w: World| w(old_self.pending()) == rv implies #[trigger] old_self.outcome(w) == match step_end(s) {
                    Some(o) => o,
                    None => self.outcome(w),
                } by {
                    assert(as_matches(w(old_self.pending())) == gi);
                    let x = search_impls(gi, 0, old_self.name(), Some(gm), w);
                    assert(old_self.after_impls(x, w) == mid.after_impls(x, w));
                }
                s
            },
            PathPhase::ReadingImpl { impls, k, ctx } => {
                let text = take_text(reply);
                let nimpls = impls.len();
                let ghost name = old_self.name();
                match find_impl_body_start(&text, impls[k].point) {
                    None => {
                        assert forall|w: World| w(old_self.pending()) == rv implies #[trigger] old_self.outcome(w) is None by {
                            assert(search_impls(matches_view(impls@), k as nat, name, opt_view(ctx), w) is None);
                        }
                        Step::Failed
                    },
                    Some(None) => {
                        let ghost gi = matches_view(impls@);
                        let ghost gc = opt_view(ctx);
                        let ghost mid = *self;
                        let s = self.advance_impls(impls, k + 1, ctx);
                assert forall|w: World| w(old_self.pending()) == rv implies #[trigger] old_self.outcome(w) == match step_end(s) {
                            Some(o) => o,
                            None => self.outcome(w),
                        } by {
                            let x = search_impls(gi, (k + 1) as nat, name, gc, w);
                            assert(search_impls(gi, k as nat, name, gc, w) == x);
                            assert(old_self.after_impls(x, w) == mid.after_impls(x, w));
                        }
                        s
                    },
                    Some(Some(point)) => {
                        self.phase = PathPhase::SearchingImpl { impls, k, ctx, text, point };
                        Step::Ask(self.query())
                    },
                }
            },
            PathPhase::SearchingImpl { impls, k, ctx, .. } => {
                let nimpls = impls.len();
                let r = take_match(reply);
                let ctx2 = if r.is_some() { r } else { ctx };
                let ghost gi = matches_view(impls@);
                let ghost gc = opt_view(ctx2);
                let ghost mid = *self;
                let s = self.advance_impls(impls, k + 1, ctx2);
                assert forall|w: World| w(old_self.pending()) == rv implies #[trigger] old_self.outcome(w) == match step_end(s) {
                    Some(o) => o,
                    None => self.outcome(w),
                } by {
                    let x = search_impls(gi, (k + 1) as nat, old_self.name(), gc, w);
                    assert(old_self.after_impls(x, w) == mid.after_impls(x, w));
                }
                s
            },
        }
    }
}

/// What is done, in turn, to the type found for the innermost part of an
/// expression: a call, a method call, or a field access.
pub enum ExprOp {
    Call,
    Method(String),
    Field(String),
}

/// `get_type_of_match` on what a path expression refers to.
pub open spec fn path_expr_type(r: Outcome, w: World) -> Outcome {
    match r {
        Some(Some(m)) => type_of_match_spec(m, w),
        _ => r,
    }
}

/// The return type of the method found, if one is.
pub open spec fn method_after(r: Option<MatchView>, w: World) -> Outcome {
    match r {
        None => Some(None),
        Some(meth) => find_type_match_spec(as_path(w(QueryView::ReturnType(meth))), meth.filepath, meth.point, w),
    }
}

/// The type of `op` done to a value of the type `m`: the return type of a
/// called function, the return type of a method found in the impls of `m`, or
/// the type of a field of `m`.
pub open spec fn op_spec(op: ExprOp, m: MatchView, w: World) -> Outcome {
    match op {
        ExprOp::Call => find_type_match_spec(as_path(w(QueryView::ReturnType(m))), m.filepath, m.point, w),
        ExprOp::Method(name) => method_after(
            as_match(w(QueryView::ImplMethod(m.matchstr, name@, m.point, m.filepath, m.local))),
            w,
        ),
        ExprOp::Field(name) => Some(as_match(w(QueryView::FieldType(name@, m)))),
    }
}

/// `op` done to what `r` is; nothing found and a failure stay as they are.
pub open spec fn apply_op(r: Outcome, op: ExprOp, w: World) -> Outcome {
    match r {
        Some(Some(m)) => op_spec(op, m, w),
        _ => r,
    }
}

/// `ops[k..]` done in turn to what `r` is.
pub open spec fn apply_ops_from(r: Outcome, ops: Seq<ExprOp>, k: nat, w: World) -> Outcome
    decreases ops.len() - k,
{
    if k >= ops.len() {
        r
    } else {
        apply_ops_from(apply_op(r, ops[k as int], w), ops, k + 1, w)
    }
}

/// The type of the expression `e`, with names looked up from `fp` at `pos`:
/// a path is resolved and the type of what it
/// refers to taken; a struct literal has the type its path names; a call has
/// the return type of its callee, a method call that of the method found in the
/// impls of its receiver's type, a field access the type of the field; any other
/// expression has no type found.
pub open spec fn expr_type_spec(e: ExprNode, fp: Seq<char>, pos: usize, w: World) -> Outcome
    decreases e,
{
    match e {
        ExprNode::Path(p) => path_expr_type(resolve_ast_path_spec(path_names(p), fp, pos, w), w),
        ExprNode::Call(callee) => apply_op(expr_type_spec(*callee, fp, pos, w), ExprOp::Call, w),
        ExprNode::Struct(p) => find_type_match_spec(path_names(p), fp, pos, w),
        ExprNode::MethodCall(name, recv) => apply_op(expr_type_spec(*recv, fp, pos, w), ExprOp::Method(name), w),
        ExprNode::Field(base, name) => apply_op(expr_type_spec(*base, fp, pos, w), ExprOp::Field(name), w),
        ExprNode::Other => Some(None),
    }
}

/// The innermost part of an expression that calls, method calls and field
/// accesses are done to.
pub open spec fn expr_base(e: ExprNode) -> ExprNode
    decreases e,
{
    match e {
        ExprNode::Call(c) => expr_base(*c),
        ExprNode::MethodCall(_, r) => expr_base(*r),
        ExprNode::Field(b, _) => expr_base(*b),
        _ => e,
    }
}

/// The calls, method calls and field accesses of an expression, innermost first.
pub open spec fn expr_ops(e: ExprNode) -> Seq<ExprOp>
    decreases e,
{
    match e {
        ExprNode::Call(c) => expr_ops(*c).push(ExprOp::Call),
        ExprNode::MethodCall(n, r) => expr_ops(*r).push(ExprOp::Method(n)),
        ExprNode::Field(b, n) => expr_ops(*b).push(ExprOp::Field(n)),
        _ => Seq::empty(),
    }
}

/// The type of the innermost part of an expression.
pub open spec fn base_type_spec(base: ExprNode, fp: Seq<char>, pos: usize, w: World) -> Outcome {
    match base {
        ExprNode::Path(p) => path_expr_type(resolve_ast_path_spec(path_names(p), fp, pos, w), w),
        ExprNode::Struct(p) => find_type_match_spec(path_names(p), fp, pos, w),
        _ => Some(None),
    }
}

pub(crate) proof fn lemma_apply_ops_stuck(r: Outcome, ops: Seq<ExprOp>, k: nat, w: World)
    requires
        !(r matches Some(Some(_))),
    ensures
        apply_ops_from(r, ops, k, w) == r,
    decreases ops.len() - k,
{
    if k < ops.len() {
        lemma_apply_ops_stuck(r, ops, k + 1, w);
    }
}

proof fn lemma_apply_ops_push(r: Outcome, s: Seq<ExprOp>, op: ExprOp, k: nat, w: World)
    requires
        k <= s.len(),
    ensures
        apply_ops_from(r, s.push(op), k, w) == apply_op(apply_ops_from(r, s, k, w), op, w),
    decreases s.len() - k,
{
    if k < s.len() {
        assert(s.push(op)[k as int] == s[k as int]);
        lemma_apply_ops_push(apply_op(r, s[k as int], w), s, op, k + 1, w);
    } else {
        assert(s.push(op)[k as int] == op);
        assert(apply_ops_from(apply_op(r, op, w), s.push(op), k + 1, w) == apply_op(r, op, w));
    }
}

/// The type of an expression is that of its innermost part, with its calls,
/// method calls and field accesses done to it in turn.
pub proof fn lemma_expr_type_flattened(e: ExprNode, fp: Seq<char>, pos: usize, w: World)
    ensures
        expr_type_spec(e, fp, pos, w) == apply_ops_from(base_type_spec(expr_base(e), fp, pos, w), expr_ops(e), 0, w),
    decreases e,
{
    match e {
        ExprNode::Call(c) => {
            lemma_expr_type_flattened(*c, fp, pos, w);
            lemma_apply_ops_push(base_type_spec(expr_base(*c), fp, pos, w), expr_ops(*c), ExprOp::Call, 0, w);
        },
        ExprNode::MethodCall(n, r) => {
            lemma_expr_type_flattened(*r, fp, pos, w);
            lemma_apply_ops_push(base_type_spec(expr_base(*r), fp, pos, w), expr_ops(*r), ExprOp::Method(n), 0, w);
        },
        ExprNode::Field(b, n) => {
            lemma_expr_type_flattened(*b, fp, pos, w);
            lemma_apply_ops_push(base_type_spec(expr_base(*b), fp, pos, w), expr_ops(*b), ExprOp::Field(n), 0, w);
        },
        _ => {},
    }
}

/// Splits an expression into its innermost part and what is done to it.
pub fn flatten_expr(e: ExprNode) -> (r: (ExprNode, Vec<ExprOp>))
    ensures
        r.0 == expr_base(e),
        r.1@ == expr_ops(e),
    decreases e,
{
    match e {
        ExprNode::Call(c) => {
            let (b, mut ops) = flatten_expr(*c);
            ops.push(ExprOp::Call);
            (b, ops)
        },
        ExprNode::MethodCall(n, r) => {
            let (b, mut ops) = flatten_expr(*r);
            ops.push(ExprOp::Method(n));
            (b, ops)
        },
        ExprNode::Field(b, n) => {
            let (bb, mut ops) = flatten_expr(*b);
            ops.push(ExprOp::Field(n));
            (bb, ops)
        },
        other => (other, Vec::new()),
    }
}

/// The state of working out the type of an expression.
pub enum ExprPhase {
    /// Resolving the path that the expression starts from.
    BasePath(PathTask),
    /// Asking for the type of what that path refers to.
    BaseTypeOf(TypeOfMatchTask),
    /// Looking up the path of a struct literal that the expression starts from.
    BaseStruct(TypeMatchTask),
    /// Asking for the return type of the function called by operation `k`.
    CallReturn { m: Match },
    /// Looking for the method of operation `k` in the impls of `m`.
    MethodLookup { m: Match },
    /// Asking for the return type of the method found.
    MethodReturn { meth: Match },
    /// Looking up the return type path of operation `k`.
    OpTypeMatch(TypeMatchTask),
    /// Asking for the type of the field of operation `k` in `m`.
    FieldLookup { m: Match },
}

/// Working out the type of an expression.
pub struct ExprTask {
    pub ops: Vec<ExprOp>,
    pub k: usize,
    pub phase: ExprPhase,
}

impl ExprTask {
    /// The phase fits the operation it is at.
    pub open spec fn wf(&self) -> bool {
        match self.phase {
            ExprPhase::BasePath(t) => t.wf() && self.k == 0,
            ExprPhase::BaseTypeOf(_) => self.k == 0,
            ExprPhase::BaseStruct(_) => self.k == 0,
            ExprPhase::CallReturn { .. } => self.k < self.ops@.len() && self.ops@[self.k as int] is Call,
            ExprPhase::MethodLookup { .. } => self.k < self.ops@.len() && self.ops@[self.k as int] is Method,
            ExprPhase::MethodReturn { .. } => self.k < self.ops@.len(),
            ExprPhase::OpTypeMatch(_) => self.k < self.ops@.len(),
            ExprPhase::FieldLookup { .. } => self.k < self.ops@.len() && self.ops@[self.k as int] is Field,
        }
    }

    /// The method name or field name of the operation being done.
    pub open spec fn op_name(&self) -> Seq<char> {
        match self.ops@[self.k as int] {
            ExprOp::Method(n) => n@,
            ExprOp::Field(n) => n@,
            ExprOp::Call => Seq::empty(),
        }
    }

    /// The question that the task waits on.
    pub open spec fn pending(&self) -> QueryView {
        match self.phase {
            ExprPhase::BasePath(t) => t.pending(),
            ExprPhase::BaseTypeOf(t) => t.pending(),
            ExprPhase::BaseStruct(t) => t.pending(),
            ExprPhase::CallReturn { m } => QueryView::ReturnType(m@),
            ExprPhase::MethodLookup { m } => QueryView::ImplMethod(
                m.matchstr@,
                self.op_name(),
                m.point,
                m.filepath@,
                m.local,
            ),
            ExprPhase::MethodReturn { meth } => QueryView::ReturnType(meth@),
            ExprPhase::OpTypeMatch(t) => t.pending(),
            ExprPhase::FieldLookup { m } => QueryView::FieldType(self.op_name(), m@),
        }
    }

    /// What the task ends with, from here on, when questions are answered by `w`.
    pub open spec fn outcome(&self, w: World) -> Outcome {
        let ops = self.ops@;
        let next = (self.k + 1) as nat;
        match self.phase {
            ExprPhase::BasePath(t) => apply_ops_from(path_expr_type(t.outcome(w), w), ops, 0, w),
            ExprPhase::BaseTypeOf(t) => apply_ops_from(t.outcome(w), ops, 0, w),
            ExprPhase::BaseStruct(t) => apply_ops_from(t.outcome(w), ops, 0, w),
            ExprPhase::CallReturn { m } => apply_ops_from(
                find_type_match_spec(as_path(w(self.pending())), m.filepath@, m.point, w),
                ops,
                next,
                w,
            ),
            ExprPhase::MethodLookup { m } => apply_ops_from(method_after(as_match(w(self.pending())), w), ops, next, w),
            ExprPhase::MethodReturn { meth } => apply_ops_from(
                find_type_match_spec(as_path(w(self.pending())), meth.filepath@, meth.point, w),
                ops,
                next,
                w,
            ),
            ExprPhase::OpTypeMatch(t) => apply_ops_from(t.outcome(w), ops, next, w),
            ExprPhase::FieldLookup { m } => apply_ops_from(Some(as_match(w(self.pending()))), ops, next, w),
        }
    }

    /// The question that the task waits on.
    pub fn query(&self) -> (q: Query)
        requires
            self.wf(),
        ensures
            q@ == self.pending(),
    {
        match &self.phase {
            ExprPhase::BasePath(t) => t.query(),
            ExprPhase::BaseTypeOf(t) => t.query(),
            ExprPhase::BaseStruct(t) => t.query(),
            ExprPhase::CallReturn { m } => Query::ReturnType { m: m.duplicate() },
            ExprPhase::MethodLookup { m } => {
                let method = match &self.ops[self.k] {
                    ExprOp::Method(n) => n.clone(),
                    _ => String::new(),
                };
                Query::ImplMethod {
                    matchstr: m.matchstr.clone(),
                    method,
                    point: m.point,
                    filepath: m.filepath.clone(),
                    local: m.local,
                }
            },
            ExprPhase::MethodReturn { meth } => Query::ReturnType { m: meth.duplicate() },
            ExprPhase::OpTypeMatch(t) => t.query(),
            ExprPhase::FieldLookup { m } => {
                let field = match &self.ops[self.k] {
                    ExprOp::Field(n) => n.clone(),
                    _ => String::new(),
                };
                Query::FieldType { field, m: m.duplicate() }
            },
        }
    }

    /// Goes on from operation `k` with `r` the type found so far.
    fn continue_ops(&mut self, r: Option<Match>) -> (s: Step)
        ensures
            final(self).ops == old(self).ops,
            s matches Step::Ask(q) ==> final(self).wf() && q@ == final(self).pending(),
            forall|w: World| #[trigger] apply_ops_from(Some(opt_view(r)), old(self).ops@, old(self).k as nat, w)
                == match step_end(s) {
                    Some(o) => o,
                    None => final(self).outcome(w),
                },
    {
        if self.k >= self.ops.len() {
            return Step::Done(r);
        }
        match r {
            None => {
                assert forall|w: World| #[trigger] apply_ops_from(Some(opt_view(r)), old(self).ops@, old(self).k as nat, w) == Some(None::<MatchView>) by {
                    lemma_apply_ops_stuck(Some(None), old(self).ops@, old(self).k as nat, w);
                }
                Step::Done(None)
            },
            Some(m) => {
                match &self.ops[self.k] {
                    ExprOp::Call => {
                        self.phase = ExprPhase::CallReturn { m };
                    },
                    ExprOp::Method(_) => {
                        self.phase = ExprPhase::MethodLookup { m };
                    },
                    ExprOp::Field(_) => {
                        self.phase = ExprPhase::FieldLookup { m };
                    },
                }
                Step::Ask(self.query())
            },
        }
    }

    /// Goes on after operation `k` is done, with `s` how its last part ended.
    fn after_op(&mut self, s: Step) -> (r: Step)
        requires
            old(self).k < old(self).ops@.len(),
            !(s is Ask),
        ensures
            final(self).ops == old(self).ops,
            r matches Step::Ask(q) ==> final(self).wf() && q@ == final(self).pending(),
            forall|w: World| #[trigger] apply_ops_from(step_end(s).unwrap(), old(self).ops@, (old(self).k + 1) as nat, w)
                == match step_end(r) {
                    Some(o) => o,
                    None => final(self).outcome(w),
                },
    {
        let n = self.ops.len();
        self.k = self.k + 1;
        match s {
            Step::Done(r) => self.continue_ops(r),
            _ => {
                assert forall|w: World| #[trigger] apply_ops_from(step_end(s).unwrap(), old(self).ops@, (old(self).k + 1) as nat, w) == None::<Option<MatchView>> by {
                    lemma_apply_ops_stuck(None, old(self).ops@, (old(self).k + 1) as nat, w);
                }
                Step::Failed
            },
        }
    }

    /// Goes on after the path that the expression starts from is resolved.
    fn after_base_path(&mut self, s: Step) -> (r: Step)
        requires
            old(self).k == 0,
            !(s is Ask),
        ensures
            final(self).ops == old(self).ops,
            r matches Step::Ask(q) ==> final(self).wf() && q@ == final(self).pending(),
            forall|w: World| #[trigger] apply_ops_from(path_expr_type(step_end(s).unwrap(), w), old(self).ops@, 0, w)
                == match step_end(r) {
                    Some(o) => o,
                    None => final(self).outcome(w),
                },
    {
        match s {
            Step::Done(Some(m)) => {
                let t = TypeOfMatchTask::start(m);
                self.phase = ExprPhase::BaseTypeOf(t);
                Step::Ask(self.query())
            },
            Step::Done(None) => self.continue_ops(None),
            _ => {
                assert forall|w: World| #[trigger] apply_ops_from(path_expr_type(step_end(s).unwrap(), w), old(self).ops@, 0, w) == None::<Option<MatchView>> by {
                    lemma_apply_ops_stuck(None, old(self).ops@, 0, w);
                }
                Step::Failed
            },
        }
    }

    /// Starts working out the type of `e`, with names looked up from `filepath`
    /// at `pos`.
    pub fn start(e: ExprNode, filepath: String, pos: usize) -> (r: (ExprTask, Step))
        ensures
            r.1 matches Step::Ask(q) ==> r.0.wf() && q@ == r.0.pending(),
            forall|w: World| #[trigger] expr_type_spec(e, filepath@, pos, w) == match step_end(r.1) {
                Some(o) => o,
                None => r.0.outcome(w),
            },
    {
        let ghost fp = filepath@;
        let ghost ge = e;
        let (base, ops) = flatten_expr(e);
        proof {
            assert forall|w: World| #[trigger] expr_type_spec(ge, fp, pos, w) == apply_ops_from(base_type_spec(base, fp, pos, w), ops@, 0, w) by {
                lemma_expr_type_flattened(ge, fp, pos, w);
            }
        }
        match base {
            ExprNode::Path(p) => {
                let segs = path_to_vec(&p);
                let (pt, s) = PathTask::start(segs, filepath, pos);
                let mut t = ExprTask { ops, k: 0, phase: ExprPhase::BasePath(pt) };
                match s {
                    Step::Ask(q) => (t, Step::Ask(q)),
                    other => {
                        let r = t.after_base_path(other);
                        (t, r)
                    },
                }
            },
            ExprNode::Struct(p) => {
                let segs = path_to_vec(&p);
                let tm = TypeMatchTask::start(segs, filepath, pos);
                let t = ExprTask { ops, k: 0, phase: ExprPhase::BaseStruct(tm) };
                let q = t.query();
                (t, Step::Ask(q))
            },
            other => {
                let mut t = ExprTask { ops, k: 0, phase: ExprPhase::BaseStruct(TypeMatchTask::start(Vec::new(), String::new(), 0)) };
                let r = t.continue_ops(None);
                (t, r)
            },
        }
    }

    /// Takes the answer to the pending question and goes on.
    pub fn resume(&mut self, reply: Reply) -> (s: Step)
        requires
            old(self).wf(),
        ensures
            s matches Step::Ask(q) ==> final(self).wf() && q@ == final(self).pending(),
            forall|w: World|
                w(old(self).pending()) == reply@ ==> #[trigger] old(self).outcome(w) == match step_end(s) {
                    Some(o) => o,
                    None => final(self).outcome(w),
                },
    {
        let ghost old_self = *self;
        let ghost rv = reply@;
        let mut phase = ExprPhase::CallReturn { m: placeholder_match() };
        std::mem::swap(&mut phase, &mut self.phase);
        assert(phase == old_self.phase);
        match phase {
            ExprPhase::BasePath(mut t) => {
                let s = t.resume(reply);
                match s {
                    Step::Ask(q) => {
                        self.phase = ExprPhase::BasePath(t);
                        Step::Ask(q)
                    },
                    other => self.after_base_path(other),
                }
            },
            ExprPhase::BaseTypeOf(mut t) => {
                let s = t.resume(reply);
                match s {
                    Step::Ask(q) => {
                        self.phase = ExprPhase::BaseTypeOf(t);
                        Step::Ask(q)
                    },
                    Step::Done(r) => self.continue_ops(r),
                    Step::Failed => {
                        assert forall|w: World| w(old_self.pending()) == rv implies #[trigger] old_self.outcome(w) is None by {
                            lemma_apply_ops_stuck(None, old_self.ops@, 0, w);
                        }
                        Step::Failed
                    },
                }
            },
            ExprPhase::BaseStruct(mut t) => {
                let s = t.resume(reply);
                match s {
                    Step::Ask(q) => {
                        self.phase = ExprPhase::BaseStruct(t);
                        Step::Ask(q)
                    },
                    Step::Done(r) => self.continue_ops(r),
                    Step::Failed => {
                        assert forall|w: World| w(old_self.pending()) == rv implies #[trigger] old_self.outcome(w) is None by {
                            lemma_apply_ops_stuck(None, old_self.ops@, 0, w);
                        }
                        Step::Failed
                    },
                }
            },
            ExprPhase::CallReturn { m } => {
                let fqn = take_path(reply);
                let t = TypeMatchTask::start(fqn, m.filepath, m.point);
                self.phase = ExprPhase::OpTypeMatch(t);
                Step::Ask(self.query())
            },
            ExprPhase::MethodLookup { m } => {
                match take_match(reply) {
                    None => self.after_op(Step::Done(None)),
                    Some(meth) => {
                        self.phase = ExprPhase::MethodReturn { meth };
                        Step::Ask(self.query())
                    },
                }
            },
            ExprPhase::MethodReturn { meth } => {
                let fqn = take_path(reply);
                let t = TypeMatchTask::start(fqn, meth.filepath, meth.point);
                self.phase = ExprPhase::OpTypeMatch(t);
                Step::Ask(self.query())
            },
            ExprPhase::OpTypeMatch(mut t) => {
                let s = t.resume(reply);
                match s {
                    Step::Ask(q) => {
                        self.phase = ExprPhase::OpTypeMatch(t);
                        Step::Ask(q)
                    },
                    other => self.after_op(other),
                }
            },
            ExprPhase::FieldLookup { .. } => {
                let r = take_match(reply);
                self.after_op(Step::Done(r))
            },
        }
    }
}

/// The type of the expression of a statement: of an expression statement, or of
/// the initializer of a `let`; nothing for any other statement.
pub open spec fn stmt_expr_type(st: StmtNode, fp: Seq<char>, pos: usize, w: World) -> Outcome {
    match st {
        StmtNode::Expr(e) => expr_type_spec(e, fp, pos, w),
        StmtNode::Local(l) => match l.init {
            Some(e) => expr_type_spec(e, fp, pos, w),
            None => Some(None),
        },
        _ => Some(None),
    }
}

/// The type of the expression of the statement written `src` (`get_type_of`);
/// a text that does not parse fails.
pub open spec fn get_type_of_spec(src: Seq<char>, fp: Seq<char>, pos: usize, w: World) -> Outcome {
    match parsed_stmt(src) {
        None => None,
        Some(st) => stmt_expr_type(st, fp, pos, w),
    }
}

fn idle_expr_task() -> (t: ExprTask)
    ensures
        t.ops@.len() == 0,
        t.k == 0,
        t.wf(),
        t.phase is BaseStruct,
        forall|w: World| #[trigger] t.outcome(w) == find_type_match_spec(Seq::empty(), Seq::empty(), 0, w),
{
    let fqn: Vec<String> = Vec::new();
    assert(fqn.deep_view() =~= Seq::<Seq<char>>::empty());
    ExprTask { ops: Vec::new(), k: 0, phase: ExprPhase::BaseStruct(TypeMatchTask::start(fqn, String::new(), 0)) }
}

/// Starts working out the type of the expression of a parsed statement.
pub fn stmt_type_task(st: StmtNode, filepath: String, pos: usize) -> (r: (ExprTask, Step))
    ensures
        r.1 matches Step::Ask(q) ==> r.0.wf() && q@ == r.0.pending(),
        forall|w: World| #[trigger] stmt_expr_type(st, filepath@, pos, w) == match step_end(r.1) {
            Some(o) => o,
            None => r.0.outcome(w),
        },
{
    match st {
        StmtNode::Expr(e) => ExprTask::start(e, filepath, pos),
        StmtNode::Local(l) => match l.init {
            Some(e) => ExprTask::start(e, filepath, pos),
            None => (idle_expr_task(), Step::Done(None)),
        },
        _ => (idle_expr_task(), Step::Done(None)),
    }
}

/// Starts working out the type of the expression of the statement `s`, with
/// names looked up from `fpath` at `pos`; fails at once where `s` does not parse.
pub fn get_type_of(s: String, fpath: String, pos: usize) -> (r: (ExprTask, Step))
    ensures
        r.1 matches Step::Ask(q) ==> r.0.wf() && q@ == r.0.pending(),
        forall|w: World| #[trigger] get_type_of_spec(s@, fpath@, pos, w) == match step_end(r.1) {
            Some(o) => o,
            None => r.0.outcome(w),
        },
{
    match string_to_stmt(s) {
        None => (idle_expr_task(), Step::Failed),
        Some(st) => stmt_type_task(st, fpath, pos),
    }
}

/// A `let` binding: its name, the byte offset of the name, and the type found
/// for it, if any.
pub struct LetResult {
    pub name: String,
    pub point: usize,
    pub inittype: Option<Match>,
}

/// A `let` binding as plain values.
pub struct LetResultView {
    pub name: Seq<char>,
    pub point: usize,
    pub inittype: Option<MatchView>,
}

impl View for LetResult {
    type V = LetResultView;

    open spec fn view(&self) -> LetResultView {
        LetResultView { name: self.name@, point: self.point, inittype: opt_view(self.inittype) }
    }
}

/// The binding `name` at `point` with the type that `o` ends with; nothing where
/// working out the type fails.
pub open spec fn let_with(name: Seq<char>, point: usize, o: Outcome) -> Option<LetResultView> {
    match o {
        None => None,
        Some(t) => Some(LetResultView { name, point, inittype: t }),
    }
}

/// What `parse_let` gives for a parsed statement: only a `let`
/// that binds a plain name gives a binding.  Where the type is wanted, it is the
/// type of what the written type path names, or (with no type path written) the
/// type of the initializer.
pub open spec fn let_stmt_spec(st: StmtNode, fp: Seq<char>, pos: usize, need_type: bool, w: World) -> Option<LetResultView> {
    match st {
        StmtNode::Local(l) => match l.pat {
            PatNode::Ident { name, lo } => {
                if !need_type {
                    Some(LetResultView { name: name@, point: lo, inittype: None })
                } else {
                    let tp = match l.ty {
                        Some(t) => type_path(t),
                        None => Seq::empty(),
                    };
                    if tp.len() > 0 {
                        let_with(name@, lo, get_type_of_path_spec(tp, fp, pos, w))
                    } else {
                        match l.init {
                            Some(e) => let_with(name@, lo, expr_type_spec(e, fp, pos, w)),
                            None => Some(LetResultView { name: name@, point: lo, inittype: None }),
                        }
                    }
                }
            },
            PatNode::Other => None,
        },
        _ => None,
    }
}

/// What `parse_let` gives for the statement written `src`; nothing where it does
/// not parse.
pub open spec fn parse_let_spec(src: Seq<char>, fp: Seq<char>, pos: usize, need_type: bool, w: World) -> Option<LetResultView> {
    match parsed_stmt(src) {
        None => None,
        Some(st) => let_stmt_spec(st, fp, pos, need_type, w),
    }
}

/// How the `let` machine goes on after a step.
pub enum LetStep {
    Ask(Query),
    Done(Option<LetResult>),
}

/// The state of working out the type of a `let` binding.
pub enum LetPhase {
    PathType(PathTypeTask),
    Expr(ExprTask),
}

/// Working out a `let` binding and its type.
pub struct LetTask {
    pub name: String,
    pub point: usize,
    pub phase: LetPhase,
}

impl LetTask {
    /// The type computation is in a state that waits on a question.
    pub open spec fn wf(&self) -> bool {
        match self.phase {
            LetPhase::PathType(_) => true,
            LetPhase::Expr(t) => t.wf(),
        }
    }

    /// The question that the task waits on.
    pub open spec fn pending(&self) -> QueryView {
        match self.phase {
            LetPhase::PathType(t) => t.pending(),
            LetPhase::Expr(t) => t.pending(),
        }
    }

    /// What the task ends with, from here on, when questions are answered by `w`.
    pub open spec fn outcome(&self, w: World) -> Option<LetResultView> {
        match self.phase {
            LetPhase::PathType(t) => let_with(self.name@, self.point, t.outcome(w)),
            LetPhase::Expr(t) => let_with(self.name@, self.point, t.outcome(w)),
        }
    }

    /// The question that the task waits on.
    pub fn query(&self) -> (q: Query)
        requires
            self.wf(),
        ensures
            q@ == self.pending(),
    {
        match &self.phase {
            LetPhase::PathType(t) => t.query(),
            LetPhase::Expr(t) => t.query(),
        }
    }

    /// The same question as `s`, or the binding with the type that `s` ends with.
    fn let_step_of(&self, s: Step) -> (r: LetStep)
        ensures
            r matches LetStep::Ask(q) ==> s matches Step::Ask(q2) && q == q2,
            s is Ask ==> r is Ask,
            r matches LetStep::Done(x) ==> step_end(s) matches Some(o) && opt_let_view(x) == let_with(self.name@, self.point, o),
    {
        match s {
            Step::Ask(q) => LetStep::Ask(q),
            Step::Done(t) => LetStep::Done(Some(LetResult { name: self.name.clone(), point: self.point, inittype: t })),
            Step::Failed => LetStep::Done(None),
        }
    }

    /// Starts working out the binding of a parsed statement.
    pub fn start(st: StmtNode, filepath: String, pos: usize, need_type: bool) -> (r: (LetTask, LetStep))
        ensures
            r.1 matches LetStep::Ask(q) ==> r.0.wf() && q@ == r.0.pending(),
            forall|w: World| #[trigger] let_stmt_spec(st, filepath@, pos, need_type, w) == match r.1 {
                LetStep::Done(x) => opt_let_view(x),
                LetStep::Ask(_) => r.0.outcome(w),
            },
    {
        let idle = LetTask { name: String::new(), point: 0, phase: LetPhase::Expr(idle_expr_task()) };
        match st {
            StmtNode::Local(l) => match l.pat {
                PatNode::Ident { name, lo } => {
                    if !need_type {
                        return (idle, LetStep::Done(Some(LetResult { name, point: lo, inittype: None })));
                    }
                    let typepath = match &l.ty {
                        Some(t) => type_to_path(t),
                        None => {
                            let v: Vec<String> = Vec::new();
                            assert(v.deep_view() =~= Seq::<Seq<char>>::empty());
                            v
                        },
                    };
                    if typepath.len() > 0 {
                        let pt = PathTypeTask::start(typepath, filepath, pos);
                        let t = LetTask { name, point: lo, phase: LetPhase::PathType(pt) };
                        let q = t.query();
                        (t, LetStep::Ask(q))
                    } else {
                        match l.init {
                            Some(e) => {
                                let (et, s) = ExprTask::start(e, filepath, pos);
                                let t = LetTask { name, point: lo, phase: LetPhase::Expr(et) };
                                let r = t.let_step_of(s);
                                (t, r)
                            },
                            None => (idle, LetStep::Done(Some(LetResult { name, point: lo, inittype: None }))),
                        }
                    }
                },
                PatNode::Other => (idle, LetStep::Done(None)),
            },
            _ => (idle, LetStep::Done(None)),
        }
    }

    /// Takes the answer to the pending question and goes on.
    pub fn resume(&mut self, reply: Reply) -> (s: LetStep)
        requires
            old(self).wf(),
        ensures
            s matches LetStep::Ask(q) ==> final(self).wf() && q@ == final(self).pending(),
            forall|w: World|
                w(old(self).pending()) == reply@ ==> #[trigger] old(self).outcome(w) == match s {
                    LetStep::Done(x) => opt_let_view(x),
                    LetStep::Ask(_) => final(self).outcome(w),
                },
    {
        let st = match &mut self.phase {
            LetPhase::PathType(t) => t.resume(reply),
            LetPhase::Expr(t) => t.resume(reply),
        };
        self.let_step_of(st)
    }
}

/// An optional binding as plain values.
pub open spec fn opt_let_view(x: Option<LetResult>) -> Option<LetResultView> {
    match x {
        Some(r) => Some(r@),
        None => None,
    }
}

/// Starts working out the binding of the `let` statement `s` (`parse_let`), with
/// names looked up from `fpath` at `pos`; the type is worked out only where
/// `need_type` holds.
pub fn parse_let(s: String, fpath: String, pos: usize, need_type: bool) -> (r: (LetTask, LetStep))
    ensures
        r.1 matches LetStep::Ask(q) ==> r.0.wf() && q@ == r.0.pending(),
        forall|w: World| #[trigger] parse_let_spec(s@, fpath@, pos, need_type, w) == match r.1 {
            LetStep::Done(x) => opt_let_view(x),
            LetStep::Ask(_) => r.0.outcome(w),
        },
{
    match string_to_stmt(s) {
        None => (
            LetTask { name: String::new(), point: 0, phase: LetPhase::Expr(idle_expr_task()) },
            LetStep::Done(None),
        ),
        Some(st) => LetTask::start(st, fpath, pos, need_type),
    }
}

} // verus!

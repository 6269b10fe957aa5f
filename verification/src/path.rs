//! POSIX paths as byte sequences: joining, components and containment.
use vstd::prelude::*;
use vstd::utf8::encode_utf8;

verus! {

/// The byte `/`.
pub const SEPARATOR: u8 = 47;

/// The byte `.`.
pub const DOT: u8 = 46;

/// A POSIX path: any bytes, with `/` between its components.
#[derive(Debug, PartialEq, Eq, PartialOrd, Ord, Hash)]
pub struct FsPath {
    pub bytes: Vec<u8>,
}

impl View for FsPath {
    type V = Seq<u8>;

    open spec fn view(&self) -> Seq<u8> {
        self.bytes@
    }
}

impl DeepView for FsPath {
    type V = Seq<u8>;

    open spec fn deep_view(&self) -> Seq<u8> {
        self.bytes@
    }
}

/// Whether a path starts at the root of the filesystem.
pub open spec fn rooted(path: Seq<u8>) -> bool {
    path.len() > 0 && path[0] == SEPARATOR
}

/// The parts of a path between its separators, empty ones among them.
pub open spec fn pieces(path: Seq<u8>) -> Seq<Seq<u8>>
    decreases path.len(),
{
    if path.len() == 0 {
        seq![Seq::empty()]
    } else {
        let before = pieces(path.drop_last());
        if path.last() == SEPARATOR {
            before.push(Seq::empty())
        } else {
            before.drop_last().push(before.last().push(path.last()))
        }
    }
}

/// Whether a piece names an entry: it is neither empty nor a single dot.
pub open spec fn is_name(piece: Seq<u8>) -> bool {
    piece.len() > 0 && piece != seq![DOT]
}

/// The pieces that name an entry, in order.
pub open spec fn names(parts: Seq<Seq<u8>>) -> Seq<Seq<u8>>
    decreases parts.len(),
{
    if parts.len() == 0 {
        Seq::empty()
    } else if is_name(parts.last()) {
        names(parts.drop_last()).push(parts.last())
    } else {
        names(parts.drop_last())
    }
}

/// What the components of a path begin with: `/` for a rooted path, `.` for one whose first
/// piece is a single dot, nothing otherwise.
pub open spec fn anchor(path: Seq<u8>) -> Seq<Seq<u8>> {
    if rooted(path) {
        seq![seq![SEPARATOR]]
    } else if pieces(path).first() == seq![DOT] {
        seq![seq![DOT]]
    } else {
        Seq::empty()
    }
}

/// The components of a path. Repeated and trailing separators do not count, nor do single dots
/// after the beginning.
pub open spec fn components(path: Seq<u8>) -> Seq<Seq<u8>> {
    anchor(path) + names(pieces(path))
}

/// Whether `path` is `base` or lies below it, by whole components.
pub open spec fn within(path: Seq<u8>, base: Seq<u8>) -> bool {
    components(base).is_prefix_of(components(path))
}

/// The path reached from `base` by `path`: a rooted path replaces the base.
pub open spec fn joined(base: Seq<u8>, path: Seq<u8>) -> Seq<u8> {
    if rooted(path) {
        path
    } else if base.len() == 0 || base.last() == SEPARATOR {
        base + path
    } else {
        base.push(SEPARATOR) + path
    }
}

/// Whether a requested path may be used at all. It is relative, has no empty and no `..`
/// component and no NUL byte; the empty path stands for the root itself.
pub open spec fn admissible(path: Seq<u8>) -> bool {
    path.len() == 0 || forall|i: int|
        0 <= i < pieces(path).len() ==> admissible_piece(#[trigger] pieces(path)[i])
}

/// Whether one component of a requested path may be used.
pub open spec fn admissible_piece(piece: Seq<u8>) -> bool {
    &&& piece.len() > 0
    &&& piece != seq![DOT, DOT]
    &&& !piece.contains(0u8)
}

/// A path has at least one piece.
pub proof fn lemma_pieces_nonempty(path: Seq<u8>)
    ensures
        pieces(path).len() > 0,
    decreases path.len(),
{
    if path.len() > 0 {
        lemma_pieces_nonempty(path.drop_last());
    }
}

/// A path without separators is one piece.
pub proof fn lemma_single_piece(path: Seq<u8>)
    requires
        forall|i: int| 0 <= i < path.len() ==> path[i] != SEPARATOR,
    ensures
        pieces(path) == seq![path],
    decreases path.len(),
{
    if path.len() == 0 {
        assert(path =~= Seq::empty());
    } else {
        lemma_single_piece(path.drop_last());
        assert(path.drop_last().push(path.last()) =~= path);
    }
}

/// Cutting after a separator cuts the pieces.
pub proof fn lemma_pieces_after_separator(base: Seq<u8>, path: Seq<u8>)
    requires
        base.len() > 0,
        base.last() == SEPARATOR,
    ensures
        pieces(base + path) == pieces(base).drop_last() + pieces(path),
    decreases path.len(),
{
    lemma_pieces_nonempty(base.drop_last());
    let whole = base + path;
    if path.len() == 0 {
        assert(whole =~= base);
        assert(pieces(base) =~= pieces(base).drop_last() + pieces(path));
    } else {
        lemma_pieces_after_separator(base, path.drop_last());
        lemma_pieces_nonempty(path.drop_last());
        assert(whole.drop_last() =~= base + path.drop_last());
        assert(whole.last() == path.last());
        let before = pieces(path.drop_last());
        let front = pieces(base).drop_last();
        if path.last() == SEPARATOR {
            assert(pieces(whole) =~= front + pieces(path));
        } else {
            assert((front + before).drop_last() =~= front + before.drop_last());
            assert((front + before).last() == before.last());
            assert(pieces(whole) =~= front + pieces(path));
        }
    }
}

proof fn lemma_names_concat(left: Seq<Seq<u8>>, right: Seq<Seq<u8>>)
    ensures
        names(left + right) == names(left) + names(right),
    decreases right.len(),
{
    if right.len() == 0 {
        assert(left + right =~= left);
        assert(names(left) + names(right) =~= names(left));
    } else {
        lemma_names_concat(left, right.drop_last());
        assert((left + right).drop_last() =~= left + right.drop_last());
        assert((left + right).last() == right.last());
        assert(names(left + right) =~= names(left) + names(right));
    }
}

/// An admissible path joined to a base lies within the base, and its own names follow the
/// components of the base.
pub proof fn law_admissible_path_stays_within(base: Seq<u8>, path: Seq<u8>)
    requires
        admissible(path),
        base.len() > 0,
    ensures
        components(joined(base, path)) == components(base) + names(pieces(path)),
        within(joined(base, path), base),
{
    if path.len() > 0 {
        lemma_relative(path);
    }
    assert(!rooted(path));
    let front = if base.last() == SEPARATOR {
        base
    } else {
        base.push(SEPARATOR)
    };
    let whole = front + path;
    assert(joined(base, path) == whole);
    lemma_pieces_nonempty(base);
    lemma_pieces_nonempty(path);
    lemma_pieces_nonempty(front.drop_last());
    lemma_pieces_after_separator(front, path);
    if base.last() != SEPARATOR {
        assert(front.drop_last() =~= base);
        assert(pieces(front).drop_last() =~= pieces(base));
        lemma_names_concat(pieces(base), pieces(path));
    } else {
        let kept = pieces(base).drop_last();
        assert(pieces(base) =~= kept.push(Seq::empty()));
        assert(names(pieces(base)) == names(kept)) by {
            assert(pieces(base).drop_last() =~= kept);
        }
        lemma_names_concat(kept, pieces(path));
    }
    assert(whole[0] == base[0]);
    assert(pieces(whole).first() == pieces(base).first() || rooted(base)) by {
        if base.last() == SEPARATOR && !rooted(base) {
            let body = base.drop_last();
            assert(body.len() > 0);
            assert(pieces(base) =~= pieces(body).push(Seq::empty()));
            lemma_pieces_nonempty(body);
        }
    }
    assert(components(whole) =~= components(base) + names(pieces(path)));
}

/// An admissible path is relative.
pub proof fn lemma_relative(path: Seq<u8>)
    requires
        admissible(path),
    ensures
        !rooted(path),
{
    if rooted(path) {
        lemma_first_piece(path);
        assert(pieces(path)[0].len() == 0);
        assert(!admissible_piece(pieces(path)[0]));
    }
}

proof fn lemma_first_piece(path: Seq<u8>)
    requires
        rooted(path),
    ensures
        pieces(path).len() > 1,
        pieces(path)[0].len() == 0,
    decreases path.len(),
{
    let before = path.drop_last();
    if before.len() == 0 {
        assert(pieces(before) =~= seq![Seq::empty()]);
    } else {
        assert(before[0] == path[0]);
        lemma_first_piece(before);
    }
}

impl Clone for FsPath {
    fn clone(&self) -> (copy: FsPath)
        ensures
            copy@ == self@,
    {
        let bytes: Vec<u8> = self.bytes.clone();
        assert(bytes@ =~= self.bytes@);
        FsPath { bytes }
    }
}

impl FsPath {
    /// The path written as `text`.
    pub fn new(text: &str) -> (path: FsPath)
        ensures
            path@ == encode_utf8(text@),
    {
        FsPath { bytes: text.as_bytes_vec() }
    }

    /// The path reached from this one by `path`.
    pub fn join(&self, path: &FsPath) -> (whole: FsPath)
        ensures
            whole@ == joined(self@, path@),
    {
        if path.bytes.len() > 0 && path.bytes[0] == SEPARATOR {
            return path.clone();
        }
        let mut whole: FsPath = self.clone();
        if self.bytes.len() > 0 && self.bytes[self.bytes.len() - 1] != SEPARATOR {
            whole.bytes.push(SEPARATOR);
        }
        let ghost front = whole@;
        let mut at: usize = 0;
        while at < path.bytes.len()
            invariant
                at <= path@.len(),
                whole@ == front + path@.take(at as int),
            decreases path.bytes.len() - at,
        {
            whole.bytes.push(path.bytes[at]);
            at = at + 1;
            assert(whole@ =~= front + path@.take(at as int));
        }
        assert(path@.take(at as int) =~= path@);
        whole
    }

    /// The parts between the separators.
    fn split(&self) -> (parts: Vec<Vec<u8>>)
        ensures
            parts.deep_view() == pieces(self@),
            parts.len() > 0,
    {
        let mut parts: Vec<Vec<u8>> = Vec::new();
        let mut piece: Vec<u8> = Vec::new();
        let mut at: usize = 0;
        assert(parts.deep_view().push(piece@) =~= pieces(self@.take(0)));
        while at < self.bytes.len()
            invariant
                at <= self@.len(),
                parts.deep_view().push(piece@) == pieces(self@.take(at as int)),
            decreases self.bytes.len() - at,
        {
            let ghost before = parts.deep_view().push(piece@);
            assert(self@.take(at + 1).drop_last() =~= self@.take(at as int));
            assert(self@.take(at + 1).last() == self@[at as int]);
            if self.bytes[at] == SEPARATOR {
                assert(piece.deep_view() =~= piece@);
                parts.push(piece);
                piece = Vec::new();
                assert(parts.deep_view() =~= before);
                assert(piece@ =~= Seq::<u8>::empty());
            } else {
                piece.push(self.bytes[at]);
                assert(before.drop_last() =~= parts.deep_view());
            }
            at = at + 1;
        }
        assert(self@.take(at as int) =~= self@);
        let ghost front = parts.deep_view();
        assert(piece.deep_view() =~= piece@);
        parts.push(piece);
        assert(parts.deep_view() =~= front.push(piece@));
        parts
    }

    /// The components of the path.
    pub fn components(&self) -> (found: Vec<Vec<u8>>)
        ensures
            found.deep_view() == components(self@),
    {
        let parts: Vec<Vec<u8>> = self.split();
        let mut found: Vec<Vec<u8>> = Vec::new();
        assert(parts.deep_view().first() == parts@[0].deep_view());
        if self.bytes.len() > 0 && self.bytes[0] == SEPARATOR {
            let root: Vec<u8> = vec![SEPARATOR];
            assert(root.deep_view() =~= seq![SEPARATOR]);
            found.push(root);
        } else if is_dot(&parts[0]) {
            let dot: Vec<u8> = vec![DOT];
            assert(dot.deep_view() =~= seq![DOT]);
            found.push(dot);
        }
        let ghost start = found.deep_view();
        assert(start =~= anchor(self@));
        let mut at: usize = 0;
        assert(parts.deep_view().take(0) =~= Seq::empty());
        assert(found.deep_view() =~= start + names(parts.deep_view().take(0)));
        while at < parts.len()
            invariant
                at <= parts.len(),
                found.deep_view() == start + names(parts.deep_view().take(at as int)),
            decreases parts.len() - at,
        {
            let ghost before = found.deep_view();
            assert(parts.deep_view().take(at + 1).drop_last() =~= parts.deep_view().take(at as int));
            assert(parts.deep_view().take(at + 1).last() == parts@[at as int].deep_view());
            if parts[at].len() > 0 && !is_dot(&parts[at]) {
                let name: Vec<u8> = parts[at].clone();
                assert(name@ =~= parts@[at as int]@);
                assert(name.deep_view() =~= parts@[at as int].deep_view());
                found.push(name);
                assert(found.deep_view() =~= before.push(name.deep_view()));
            }
            at = at + 1;
            assert(found.deep_view() =~= start + names(parts.deep_view().take(at as int)));
        }
        assert(parts.deep_view().take(at as int) =~= parts.deep_view());
        found
    }

    /// Whether the path is `base` or lies below it, by whole components.
    pub fn starts_with(&self, base: &FsPath) -> (answer: bool)
        ensures
            answer == within(self@, base@),
    {
        let own: Vec<Vec<u8>> = self.components();
        let prefix: Vec<Vec<u8>> = base.components();
        if prefix.len() > own.len() {
            return false;
        }
        let mut at: usize = 0;
        while at < prefix.len()
            invariant
                at <= prefix.len() <= own.len(),
                own.deep_view() == components(self@),
                prefix.deep_view() == components(base@),
                forall|i: int|
                    0 <= i < at ==> own.deep_view()[i] == #[trigger] prefix.deep_view()[i],
            decreases prefix.len() - at,
        {
            if !same_bytes(&own[at], &prefix[at]) {
                assert(own.deep_view()[at as int] != prefix.deep_view()[at as int]);
                return false;
            }
            at = at + 1;
        }
        assert(prefix.deep_view() =~= own.deep_view().take(prefix.len() as int));
        true
    }

    /// Whether the path may be requested.
    pub fn is_admissible(&self) -> (answer: bool)
        ensures
            answer == admissible(self@),
    {
        if self.bytes.len() == 0 {
            return true;
        }
        let parts: Vec<Vec<u8>> = self.split();
        let mut at: usize = 0;
        while at < parts.len()
            invariant
                at <= parts.len(),
                self@.len() > 0,
                parts.deep_view() == pieces(self@),
                forall|i: int| 0 <= i < at ==> admissible_piece(#[trigger] pieces(self@)[i]),
            decreases parts.len() - at,
        {
            assert(pieces(self@)[at as int] == parts@[at as int].deep_view());
            if !piece_is_admissible(&parts[at]) {
                return false;
            }
            at = at + 1;
        }
        true
    }
}

fn piece_is_admissible(piece: &Vec<u8>) -> (answer: bool)
    ensures
        answer == admissible_piece(piece.deep_view()),
{
    assert(piece.deep_view() =~= piece@);
    let parent: Vec<u8> = vec![DOT, DOT];
    assert(parent@ =~= seq![DOT, DOT]);
    if piece.len() == 0 || same_bytes(piece, &parent) {
        return false;
    }
    let mut at: usize = 0;
    while at < piece.len()
        invariant
            at <= piece.len(),
            piece.deep_view() == piece@,
            forall|i: int| 0 <= i < at ==> piece@[i] != 0,
        decreases piece.len() - at,
    {
        if piece[at] == 0 {
            assert(piece@.contains(piece@[at as int]));
            return false;
        }
        at = at + 1;
    }
    true
}

fn is_dot(piece: &Vec<u8>) -> (answer: bool)
    ensures
        answer == (piece.deep_view() == seq![DOT]),
        piece@ == piece.deep_view(),
{
    let dot: Vec<u8> = vec![DOT];
    assert(dot@ =~= seq![DOT]);
    same_bytes(piece, &dot)
}

fn same_bytes(left: &Vec<u8>, right: &Vec<u8>) -> (answer: bool)
    ensures
        answer == (left@ == right@),
        left@ == left.deep_view(),
        right@ == right.deep_view(),
{
    assert(left@ =~= left.deep_view());
    assert(right@ =~= right.deep_view());
    if left.len() != right.len() {
        return false;
    }
    let mut at: usize = 0;
    while at < left.len()
        invariant
            at <= left.len() == right.len(),
            forall|i: int| 0 <= i < at ==> left@[i] == right@[i],
        decreases left.len() - at,
    {
        if left[at] != right[at] {
            return false;
        }
        at = at + 1;
    }
    assert(left@ =~= right@);
    true
}

} // verus!

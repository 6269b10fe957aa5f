//! A request for a file is joined to the directory of the user, kept inside it, and answered.
use crate::path::{
    admissible, admissible_piece, anchor, components, is_name, joined, lemma_pieces_after_separator,
    lemma_pieces_nonempty, lemma_single_piece, names, pieces, within, FsPath,
};
use crate::service::{
    candidate_path, sanitize_path, verdict, Located, Opening, ReadFile, ReadStep,
};
use crate::user::{Authenticator, User};
use vstd::prelude::*;
use vstd::utf8::encode_utf8;

verus! {

/// Whether two separators stand side by side here.
pub open spec fn double_at(path: Seq<u8>, i: int) -> bool {
    0 <= i && i + 1 < path.len() && path[i] == 47 && path[i + 1] == 47
}

/// Whether a NUL byte stands here.
pub open spec fn nul_at(path: Seq<u8>, i: int) -> bool {
    0 <= i < path.len() && path[i] == 0
}

/// Whether a component begins here that is two dots and nothing else.
pub open spec fn parent_at(path: Seq<u8>, i: int) -> bool {
    &&& 0 <= i && i + 2 <= path.len()
    &&& path[i] == 46 && path[i + 1] == 46
    &&& i == 0 || path[i - 1] == 47
    &&& i + 2 == path.len() || path[i + 2] == 47
}

/// Whether a requested path could lead elsewhere: it starts or ends with a separator, has two of
/// them side by side, holds a NUL byte, or has a component that is two dots.
pub open spec fn could_lead_elsewhere(path: Seq<u8>) -> bool {
    path.len() > 0 && {
        ||| path[0] == 47
        ||| path[path.len() - 1] == 47
        ||| exists|i: int| double_at(path, i)
        ||| exists|i: int| nul_at(path, i)
        ||| exists|i: int| parent_at(path, i)
    }
}

/// Where the last component of a path begins.
spec fn last_begin(path: Seq<u8>) -> int
    decreases path.len(),
{
    if path.len() == 0 || path.last() == 47 {
        path.len() as int
    } else {
        last_begin(path.drop_last())
    }
}

proof fn lemma_last_begin(path: Seq<u8>)
    ensures
        0 <= last_begin(path) <= path.len(),
        last_begin(path) > 0 ==> path[last_begin(path) - 1] == 47,
        forall|i: int| last_begin(path) <= i < path.len() ==> path[i] != 47,
    decreases path.len(),
{
    if path.len() > 0 && path.last() != 47 {
        let before = path.drop_last();
        lemma_last_begin(before);
        assert forall|i: int| last_begin(path) <= i < path.len() implies path[i] != 47 by {
            if i < before.len() {
                assert(before[i] == path[i]);
            }
        }
    }
}

/// Whether all pieces of a path may be used.
spec fn all_pieces_admissible(path: Seq<u8>) -> bool {
    forall|i: int| 0 <= i < pieces(path).len() ==> admissible_piece(#[trigger] pieces(path)[i])
}

proof fn lemma_last_piece(path: Seq<u8>)
    requires
        last_begin(path) > 0,
    ensures
        pieces(path) == pieces(path.take(last_begin(path) - 1)).push(path.skip(last_begin(path))),
{
    lemma_last_begin(path);
    let cut = last_begin(path);
    let front = path.take(cut);
    let tail = path.skip(cut);
    assert(front + tail =~= path);
    assert(front.last() == 47);
    lemma_pieces_after_separator(front, tail);
    lemma_single_piece(tail);
    assert(front.drop_last() =~= path.take(cut - 1));
    lemma_pieces_nonempty(front.drop_last());
    assert(pieces(front).drop_last() =~= pieces(path.take(cut - 1)));
    assert(pieces(path) =~= pieces(path.take(cut - 1)).push(tail));
}

proof fn lemma_pieces_by_bytes(path: Seq<u8>)
    ensures
        all_pieces_admissible(path) <==> path.len() > 0 && !could_lead_elsewhere(path),
    decreases path.len(),
{
    lemma_last_begin(path);
    let cut = last_begin(path);
    if path.len() == 0 {
        assert(pieces(path)[0].len() == 0);
        assert(!admissible_piece(pieces(path)[0]));
    } else if cut == 0 {
        lemma_single_piece(path);
        assert(pieces(path)[0] == path);
        assert(all_pieces_admissible(path) <==> admissible_piece(path));
        if admissible_piece(path) {
            assert forall|i: int| !nul_at(path, i) by {
                if nul_at(path, i) {
                    assert(path.contains(path[i]));
                }
            }
            assert forall|i: int| !parent_at(path, i) by {
                if parent_at(path, i) {
                    assert(path =~= seq![46u8, 46u8]);
                }
            }
        } else if path.contains(0u8) {
            let i = choose|i: int| 0 <= i < path.len() && path[i] == 0u8;
            assert(nul_at(path, i));
        } else {
            assert(path == seq![46u8, 46u8]);
            assert(parent_at(path, 0));
        }
    } else {
        let front = path.take(cut - 1);
        let tail = path.skip(cut);
        lemma_last_piece(path);
        lemma_pieces_by_bytes(front);
        let parts = pieces(front).push(tail);
        assert(all_pieces_admissible(path) <==> all_pieces_admissible(front) && admissible_piece(
            tail,
        )) by {
            assert(parts[parts.len() - 1] == tail);
            assert forall|i: int| 0 <= i < pieces(front).len() implies parts[i] == #[trigger] pieces(
                front,
            )[i] by {}
            if all_pieces_admissible(path) {
                assert(admissible_piece(pieces(path)[parts.len() - 1]));
                assert forall|i: int| 0 <= i < pieces(front).len() implies admissible_piece(
                    #[trigger] pieces(front)[i],
                ) by {
                    assert(admissible_piece(pieces(path)[i]));
                }
            }
        }
        if !could_lead_elsewhere(path) {
            assert forall|i: int| !double_at(front, i) by {
                assert(!double_at(path, i));
            }
            assert forall|i: int| !nul_at(front, i) by {
                assert(!nul_at(path, i));
            }
            assert forall|i: int| !parent_at(front, i) by {
                assert(!parent_at(path, i));
            }
            assert(!double_at(path, cut - 2));
            assert(tail.len() > 0);
            assert(tail != seq![46u8, 46u8]) by {
                assert(!parent_at(path, cut));
            }
            assert(!tail.contains(0u8)) by {
                if tail.contains(0u8) {
                    let i = choose|i: int| 0 <= i < tail.len() && tail[i] == 0u8;
                    assert(nul_at(path, cut + i));
                }
            }
        }
        if all_pieces_admissible(path) {
            assert forall|i: int| !double_at(path, i) by {
                if double_at(path, i) {
                    if i + 1 < cut - 1 {
                        assert(double_at(front, i));
                    }
                }
            }
            assert forall|i: int| !nul_at(path, i) by {
                if nul_at(path, i) {
                    if i < cut - 1 {
                        assert(nul_at(front, i));
                    } else {
                        assert(tail[i - cut] == 0u8);
                    }
                }
            }
            assert forall|i: int| !parent_at(path, i) by {
                if parent_at(path, i) {
                    if i < cut {
                        assert(i + 2 <= cut - 1);
                        assert(parent_at(front, i));
                    } else {
                        assert(i == cut);
                        assert(tail =~= seq![46u8, 46u8]);
                    }
                }
            }
        }
    }
}

/// A requested path is refused exactly if it could lead elsewhere. Every other one, however long,
/// may be used, and so may the empty one, which stands for the directory itself.
pub proof fn law_only_what_could_lead_elsewhere_is_refused(path: Seq<u8>)
    ensures
        admissible(path) <==> !could_lead_elsewhere(path),
{
    lemma_pieces_by_bytes(path);
}

/// The pieces put together again, with separators between them.
pub open spec fn glued(parts: Seq<Seq<u8>>) -> Seq<u8>
    decreases parts.len(),
{
    if parts.len() == 0 {
        Seq::empty()
    } else if parts.len() == 1 {
        parts[0]
    } else {
        glued(parts.drop_last()) + seq![47u8] + parts.last()
    }
}

/// The pieces of a path are what stands between its separators: put together again they are the
/// path, and none of them holds a separator.
pub proof fn law_pieces_stand_between_separators(path: Seq<u8>)
    ensures
        pieces(path).len() > 0,
        glued(pieces(path)) == path,
        forall|i: int, j: int|
            0 <= i < pieces(path).len() && 0 <= j < pieces(path)[i].len() ==> #[trigger] pieces(
                path,
            )[i][j] != 47,
    decreases path.len(),
{
    if path.len() == 0 {
        assert(glued(pieces(path)) =~= path);
    } else {
        let front = path.drop_last();
        let before = pieces(front);
        law_pieces_stand_between_separators(front);
        if path.last() == 47 {
            assert(pieces(path).drop_last() =~= before);
            assert(glued(pieces(path)) =~= path);
        } else {
            let last = before.last().push(path.last());
            let now = before.drop_last().push(last);
            assert(now.drop_last() =~= before.drop_last());
            assert(glued(now) =~= glued(before).push(path.last())) by {
                if before.len() == 1 {
                    assert(now[0] == last);
                }
            }
            assert(glued(now) =~= path);
            assert forall|i: int, j: int|
                0 <= i < now.len() && 0 <= j < now[i].len() implies #[trigger] now[i][j] != 47 by {
                if i < before.len() - 1 {
                    assert(now[i] == before[i]);
                } else if j < before.last().len() {
                    assert(before[before.len() - 1][j] != 47);
                }
            }
        }
    }
}

proof fn lemma_names_filter(parts: Seq<Seq<u8>>)
    ensures
        names(parts) == parts.filter(|part: Seq<u8>| part.len() > 0 && part != seq![46u8]),
    decreases parts.len(),
{
    reveal(Seq::filter);
    if parts.len() > 0 {
        lemma_names_filter(parts.drop_last());
    }
}

/// The components of a path are its pieces without the empty ones and the single dots; a separator
/// or a single dot that the path begins with comes first.
pub proof fn law_components_are_the_pieces_that_name(path: Seq<u8>)
    ensures
        components(path) == (if path.len() > 0 && path[0] == 47 {
            seq![seq![47u8]]
        } else if pieces(path)[0] == seq![46u8] {
            seq![seq![46u8]]
        } else {
            Seq::empty()
        }) + pieces(path).filter(|part: Seq<u8>| part.len() > 0 && part != seq![46u8]),
{
    lemma_names_filter(pieces(path));
}

/// A path lies inside another exactly if its components begin with those of the other.
pub proof fn law_inside_goes_by_components(path: Seq<u8>, base: Seq<u8>)
    ensures
        within(path, base) <==> components(base).len() <= components(path).len() && forall|i: int|
            0 <= i < components(base).len() ==> components(path)[i] == components(base)[i],
{
    if components(base).len() <= components(path).len() && forall|i: int|
        0 <= i < components(base).len() ==> components(path)[i] == components(base)[i] {
        assert(components(base) =~= components(path).subrange(0, components(base).len() as int));
    }
}

/// Whether a path is spelled as the filesystem spells real paths: it begins with a separator, has no
/// two of them side by side, none at its end, and no component that is a single dot.
pub open spec fn canonical(path: Seq<u8>) -> bool {
    &&& path.len() > 0 && path[0] == 47
    &&& path.len() > 1 ==> path[path.len() - 1] != 47
    &&& forall|i: int| !double_at(path, i)
    &&& forall|i: int| !dot_at(path, i)
}

/// Whether a component begins here that is a single dot.
pub open spec fn dot_at(path: Seq<u8>, i: int) -> bool {
    &&& 0 < i < path.len()
    &&& path[i] == 46 && path[i - 1] == 47
    &&& i + 1 == path.len() || path[i + 1] == 47
}

/// The names, each with a separator before it.
spec fn flat(parts: Seq<Seq<u8>>) -> Seq<u8>
    decreases parts.len(),
{
    if parts.len() == 0 {
        Seq::empty()
    } else {
        flat(parts.drop_last()) + seq![47u8] + parts.last()
    }
}

proof fn lemma_flat(path: Seq<u8>)
    requires
        path.len() == 0 || canonical(path) && path.len() > 1,
    ensures
        flat(names(pieces(path))) == path,
    decreases path.len(),
{
    reveal_with_fuel(names, 2);
    if path.len() == 0 {
        assert(pieces(path) =~= seq![Seq::<u8>::empty()]);
        assert(pieces(path).drop_last() =~= Seq::empty());
        assert(names(pieces(path)) =~= Seq::empty());
    } else {
        lemma_last_begin(path);
        let cut = last_begin(path);
        assert(cut > 0);
        assert(cut < path.len());
        let front = path.take(cut - 1);
        let tail = path.skip(cut);
        lemma_last_piece(path);
        if front.len() > 0 {
            assert(!double_at(path, cut - 2));
            assert forall|i: int| !double_at(front, i) by {
                assert(!double_at(path, i));
            }
            assert forall|i: int| !dot_at(front, i) by {
                assert(!dot_at(path, i));
            }
            assert(front.len() > 1) by {
                if front.len() == 1 {
                    assert(double_at(path, 0));
                }
            }
        }
        lemma_flat(front);
        assert(tail != seq![46u8]) by {
            if tail == seq![46u8] {
                assert(tail[0] == path[cut] && tail[0] == 46);
                assert(tail.len() == 1);
                assert(cut + 1 == path.len());
                assert(dot_at(path, cut));
            }
        }
        assert(is_name(tail));
        assert(pieces(path).drop_last() =~= pieces(front));
        assert(names(pieces(path)) == names(pieces(front)).push(tail));
        assert(names(pieces(path)).drop_last() =~= names(pieces(front)));
        assert(flat(names(pieces(path))) =~= path);
    }
}

proof fn lemma_flat_prefix(parts: Seq<Seq<u8>>, count: int)
    requires
        0 <= count <= parts.len(),
    ensures
        flat(parts.take(count)).len() <= flat(parts).len(),
        flat(parts).take(flat(parts.take(count)).len() as int) == flat(parts.take(count)),
        count < parts.len() ==> flat(parts.take(count)).len() < flat(parts).len() && flat(
            parts,
        )[flat(parts.take(count)).len() as int] == 47,
    decreases parts.len() - count,
{
    if count == parts.len() {
        assert(parts.take(count) =~= parts);
        assert(flat(parts).take(flat(parts).len() as int) =~= flat(parts));
    } else {
        lemma_flat_prefix(parts, count + 1);
        let shorter = flat(parts.take(count));
        let longer = flat(parts.take(count + 1));
        assert(parts.take(count + 1).drop_last() =~= parts.take(count));
        assert(longer == shorter + seq![47u8] + parts[count]);
        assert(longer.take(shorter.len() as int) =~= shorter);
        assert(flat(parts).take(shorter.len() as int) =~= longer.take(shorter.len() as int));
        assert(longer[shorter.len() as int] == 47);
        assert(flat(parts)[shorter.len() as int] == flat(parts).take(
            longer.len() as int,
        )[shorter.len() as int]);
    }
}

/// Of paths as the filesystem spells them, one lies inside another exactly if it is the same path or
/// goes on with a separator where the other ends. Everything lies inside `/`.
pub proof fn law_inside_by_bytes(path: Seq<u8>, base: Seq<u8>)
    requires
        canonical(path),
        canonical(base),
    ensures
        within(path, base) <==> {
            ||| base == seq![47u8]
            ||| path == base
            ||| path.len() > base.len() && path.take(base.len() as int) == base
                && path[base.len() as int] == 47
        },
{
    let root = seq![47u8];
    assert(pieces(root) =~= seq![Seq::<u8>::empty(), Seq::<u8>::empty()]) by {
        assert(root.drop_last() =~= Seq::empty());
        reveal_with_fuel(pieces, 2);
    }
    assert(names(pieces(root)) =~= Seq::empty()) by {
        reveal_with_fuel(names, 3);
    }
    let ours = names(pieces(path));
    let theirs = names(pieces(base));
    assert(components(path) =~= seq![root] + ours);
    assert(components(base) =~= seq![root] + theirs);
    if base =~= root {
        assert(components(base) =~= seq![root]);
        assert(components(path).subrange(0, 1) =~= components(base));
    } else {
        assert(base.len() > 1) by {
            if base.len() == 1 {
                assert(base =~= root);
            }
        }
        lemma_flat(base);
        if path.len() > 1 {
            lemma_flat(path);
        } else {
            assert(path =~= root);
            assert(theirs.len() > 0) by {
                if theirs.len() == 0 {
                    assert(flat(theirs).len() == 0);
                }
            }
            assert(components(path).len() < components(base).len());
        }
        if within(path, base) && path.len() > 1 {
            let count = theirs.len() as int;
            assert(theirs =~= ours.take(count)) by {
                assert(components(base) =~= components(path).subrange(
                    0,
                    components(base).len() as int,
                ));
                assert forall|i: int| 0 <= i < count implies theirs[i] == ours[i] by {
                    assert(components(base)[i + 1] == components(path)[i + 1]);
                }
            }
            lemma_flat_prefix(ours, count);
            if count == ours.len() {
                assert(ours.take(count) =~= ours);
            }
        }
        if path == base {
            assert(components(path).subrange(0, components(base).len() as int) =~= components(base));
        }
        if path.len() > base.len() && path.take(base.len() as int) == base
            && path[base.len() as int] == 47 {
            let front = path.take(base.len() as int + 1);
            let rest = path.skip(base.len() as int + 1);
            assert(front + rest =~= path);
            assert(front.last() == 47);
            assert(front.drop_last() =~= base);
            lemma_pieces_after_separator(front, rest);
            lemma_pieces_nonempty(base);
            assert(pieces(front).drop_last() =~= pieces(base));
            lemma_names_of_two(pieces(base), pieces(rest));
            assert(components(path).subrange(0, components(base).len() as int) =~= components(base));
        }
    }
}

proof fn lemma_names_of_two(left: Seq<Seq<u8>>, right: Seq<Seq<u8>>)
    ensures
        names(left + right) == names(left) + names(right),
    decreases right.len(),
{
    if right.len() == 0 {
        assert(left + right =~= left);
        assert(names(left) + names(right) =~= names(left));
    } else {
        lemma_names_of_two(left, right.drop_last());
        assert((left + right).drop_last() =~= left + right.drop_last());
        assert(names(left + right) =~= names(left) + names(right));
    }
}

/// A path that does not begin with a separator is put behind the other.
pub proof fn law_joined_path_is_put_behind(base: Seq<u8>, path: Seq<u8>)
    requires
        path.len() == 0 || path[0] != 47,
    ensures
        joined(base, path) == behind(base, path),
{
    assert(base.push(47) =~= base + seq![47u8]);
}

/// A path that begins with a separator stays as it is, and so does one that is joined to nothing.
pub proof fn law_joined_path_stays(base: Seq<u8>, path: Seq<u8>)
    requires
        base.len() == 0 || path.len() > 0 && path[0] == 47,
    ensures
        joined(base, path) == path,
{
    assert(Seq::empty() + path =~= path);
    assert(base.len() == 0 ==> base + path =~= path);
}

/// Paths are made, joined and compared as the laws on their bytes say.
pub proof fn law_path_operations(
    text: &str,
    made: FsPath,
    base: &FsPath,
    path: &FsPath,
    whole: FsPath,
    inside: bool,
    usable: bool,
    parts: Vec<Vec<u8>>,
)
    requires
        call_ensures(FsPath::components, (path,), parts),
        call_ensures(FsPath::new, (text,), made),
        call_ensures(FsPath::join, (base, path), whole),
        call_ensures(FsPath::starts_with, (path, base), inside),
        call_ensures(FsPath::is_admissible, (path,), usable),
    ensures
        parts.deep_view() == components(path.bytes@),
        made.bytes@ == encode_utf8(text@),
        whole.bytes@ == joined(base.bytes@, path.bytes@),
        inside == within(path.bytes@, base.bytes@),
        usable == !could_lead_elsewhere(path.bytes@),
{
    lemma_pieces_by_bytes(path.bytes@);
}

/// A request starts with the requested path behind the directory of the user, unless it could lead
/// elsewhere: then it is refused as forbidden, and nothing is asked of the filesystem.
pub proof fn law_request_starts_behind_the_directory(
    root: FsPath,
    text: &str,
    request: ReadFile,
    candidate: Result<FsPath, u16>,
)
    requires
        call_ensures(ReadFile::new, (root, text), request),
        call_ensures(candidate_path, (&root, text), candidate),
    ensures
        request.user_data_root == root,
        could_lead_elsewhere(encode_utf8(text@)) ==> request.step == ReadStep::Refuse(403u16)
            && candidate == Err::<FsPath, u16>(403u16),
        !could_lead_elsewhere(encode_utf8(text@)) ==> {
            let expected = behind(root.bytes@, encode_utf8(text@));
            &&& request.step matches ReadStep::Canonicalize(path) && path.bytes@ == expected
            &&& candidate matches Ok(path) && path.bytes@ == expected
        },
{
    let bytes = encode_utf8(text@);
    lemma_pieces_by_bytes(bytes);
    if !could_lead_elsewhere(bytes) {
        law_joined_path_is_put_behind(root.bytes@, bytes);
    }
}

/// A path behind a directory: with one separator between them, unless there is no directory.
pub open spec fn behind(base: Seq<u8>, path: Seq<u8>) -> Seq<u8> {
    if base.len() == 0 || base[base.len() - 1] == 47 {
        base + path
    } else {
        base + seq![47u8] + path
    }
}

/// A real path is inspected exactly if it lies inside the directory of the user. What is denied or
/// lies elsewhere is forbidden, what is of the wrong kind is a bad request, and what is missing is
/// not found.
pub proof fn law_real_path_is_kept_inside(
    request: ReadFile,
    located: Located<FsPath>,
    next: ReadFile,
    kept: Result<FsPath, u16>,
)
    requires
        call_ensures(ReadFile::canonicalized, (request, located), next),
        call_ensures(sanitize_path, (&request.user_data_root, located), kept),
    ensures
        next.user_data_root == request.user_data_root,
        match located {
            Located::Found(path) => if within(path.bytes@, request.user_data_root.bytes@) {
                &&& next.step matches ReadStep::Inspect(target) && target.bytes@ == path.bytes@
                &&& kept matches Ok(target) && target.bytes@ == path.bytes@
            } else {
                next.step == ReadStep::Refuse(403u16) && kept == Err::<FsPath, u16>(403u16)
            },
            Located::Denied => next.step == ReadStep::Refuse(403u16) && kept == Err::<FsPath, u16>(
                403u16,
            ),
            Located::WrongKind => next.step == ReadStep::Refuse(400u16) && kept == Err::<
                FsPath,
                u16,
            >(400u16),
            Located::Missing => next.step == ReadStep::Refuse(404u16) && kept == Err::<FsPath, u16>(
                404u16,
            ),
        },
{
}

/// A file that is there is opened, and one that is not is not found.
pub proof fn law_present_file_is_opened(request: ReadFile, present: bool, next: ReadFile)
    requires
        call_ensures(ReadFile::inspected, (request, present), next),
        request.step is Inspect,
    ensures
        next.user_data_root == request.user_data_root,
        present ==> next.step == ReadStep::Open(request.step->Inspect_0),
        !present ==> next.step == ReadStep::Refuse(404u16),
{
}

/// A file that was opened is sent, and every failure has its own answer.
pub proof fn law_opened_file_is_sent(request: ReadFile, opening: Opening, next: ReadFile)
    requires
        call_ensures(ReadFile::opened, (request, opening), next),
    ensures
        next.user_data_root == request.user_data_root,
        next.step is Send <==> opening is Opened,
        opening is Denied ==> next.step == ReadStep::Refuse(403u16),
        opening is WrongKind ==> next.step == ReadStep::Refuse(400u16),
        opening is Missing ==> next.step == ReadStep::Refuse(404u16),
        opening is Failed ==> next.step == ReadStep::Refuse(500u16),
{
}

/// What a request is answered, from its first step to its last.
pub proof fn law_answer_to_a_request(
    root: Seq<u8>,
    requested: Seq<u8>,
    located: Located<Seq<u8>>,
    present: bool,
    opening: Opening,
)
    ensures
        ({
            let answer = verdict(root, requested, located, present, opening);
            let elsewhere = could_lead_elsewhere(requested);
            let inside = located matches Located::Found(path) && within(path, root);
            &&& answer is Ok <==> !elsewhere && inside && present && opening is Opened
            &&& answer == Err::<(), u16>(403u16) <==> {
                ||| elsewhere
                ||| located is Denied
                ||| located is Found && !inside
                ||| inside && present && opening is Denied
            }
            &&& answer == Err::<(), u16>(400u16) <==> !elsewhere && {
                ||| located is WrongKind
                ||| inside && present && opening is WrongKind
            }
            &&& answer == Err::<(), u16>(404u16) <==> !elsewhere && {
                ||| located is Missing
                ||| inside && !present
                ||| inside && opening is Missing
            }
            &&& answer == Err::<(), u16>(500u16) <==> !elsewhere && inside && present
                && opening is Failed
        }),
{
    lemma_pieces_by_bytes(requested);
}

/// A user is let in exactly with a valid token, and has their files in `myuser` behind the directory
/// of all users. Everyone else is unauthorized.
pub proof fn law_only_a_valid_token_lets_in(
    data_root: FsPath,
    authenticator: Authenticator,
    token_is_valid: bool,
    user: Option<User>,
    outcome: Result<User, u16>,
    shown: &FsPath,
)
    requires
        call_ensures(Authenticator::new, (data_root,), authenticator),
        call_ensures(Authenticator::check_auth, (&authenticator, token_is_valid), user),
        call_ensures(Authenticator::authorize, (&authenticator, token_is_valid), outcome),
        outcome is Ok ==> call_ensures(User::data_root, (&outcome->Ok_0,), shown),
    ensures
        user is Some <==> token_is_valid,
        outcome is Ok <==> token_is_valid,
        !token_is_valid ==> outcome == Err::<User, u16>(401u16),
        token_is_valid ==> shown.bytes@ == behind(data_root.bytes@, encode_utf8("myuser"@)),
{
    assert(encode_utf8("myuser"@)[0] != 47) by {
        reveal_strlit("myuser");
        reveal_with_fuel(encode_utf8, 2);
        assert(109u32 & 0x7f == 109) by (bit_vector);
    }
    law_joined_path_is_put_behind(data_root.bytes@, encode_utf8("myuser"@));
}

} // verus!

use vstd::prelude::*;

use crate::text::{is_numeric, numeric_char};

verus! {

/// Characters that belong to a number token of an OBJ line: numeric
/// characters, the decimal point and the minus sign. Among ASCII
/// characters the numeric ones are exactly `'0'..='9'`.
pub open spec fn keeps_char(c: char) -> bool {
    if c <= '\x7f' {
        ('0' <= c && c <= '9') || c == '.' || c == '-'
    } else {
        numeric_char(c)
    }
}

/// The runs of kept characters of `s`, split at every other character.
/// A text with `k` separators has `k + 1` runs, some of them empty.
pub open spec fn split_runs(s: Seq<char>) -> Seq<Seq<char>>
    decreases s.len(),
{
    if s.len() == 0 {
        seq![Seq::empty()]
    } else {
        let runs = split_runs(s.drop_last());
        let c = s.last();
        if keeps_char(c) {
            runs.update(runs.len() - 1, runs.last().push(c))
        } else {
            runs.push(Seq::empty())
        }
    }
}

/// The number tokens of a non-empty slice of an OBJ line: the runs of
/// all but its last character, with the last character always appended
/// to the final run.
pub open spec fn number_tokens_spec(s: Seq<char>) -> Seq<Seq<char>> {
    let runs = split_runs(s.drop_last());
    runs.update(runs.len() - 1, runs.last().push(s.last()))
}

/// How many characters of `s` separate tokens.
pub open spec fn separator_count(s: Seq<char>) -> nat
    decreases s.len(),
{
    if s.len() == 0 {
        0
    } else if keeps_char(s.last()) {
        separator_count(s.drop_last())
    } else {
        separator_count(s.drop_last()) + 1
    }
}

/// The kept characters of `s`, in order.
pub open spec fn kept_chars(s: Seq<char>) -> Seq<char>
    decreases s.len(),
{
    if s.len() == 0 {
        Seq::empty()
    } else if keeps_char(s.last()) {
        kept_chars(s.drop_last()).push(s.last())
    } else {
        kept_chars(s.drop_last())
    }
}

/// `split_runs` yields one run more than there are separators, and the
/// runs hold exactly the kept characters, in order.
pub proof fn lemma_split_runs_shape(s: Seq<char>)
    ensures
        split_runs(s).len() == separator_count(s) + 1,
        split_runs(s).flatten() == kept_chars(s),
    decreases s.len(),
{
    if s.len() == 0 {
        let e: Seq<char> = Seq::empty();
        assert(seq![e].flatten() =~= e) by {
            seq![e].lemma_flatten_one_element();
        }
    } else {
        let t = s.drop_last();
        lemma_split_runs_shape(t);
        let runs = split_runs(t);
        let c = s.last();
        let pre = runs.drop_last();
        assert(runs =~= pre.push(runs.last()));
        pre.lemma_flatten_push(runs.last());
        if keeps_char(c) {
            let upd = runs.update(runs.len() - 1, runs.last().push(c));
            assert(upd =~= pre.push(runs.last().push(c)));
            pre.lemma_flatten_push(runs.last().push(c));
            assert(upd.flatten() =~= runs.flatten().push(c));
        } else {
            runs.lemma_flatten_push(Seq::empty());
            assert(runs.push(Seq::empty()).flatten() =~= runs.flatten());
        }
    }
}

/// Law of the tokenizer: a slice with `k` separators before its last
/// character yields `k + 1` tokens, and the tokens, joined, are the kept
/// characters of all but the last character followed by the last character.
pub proof fn lemma_number_tokens_shape(s: Seq<char>)
    requires
        s.len() > 0,
    ensures
        number_tokens_spec(s).len() == separator_count(s.drop_last()) + 1,
        number_tokens_spec(s).flatten() == kept_chars(s.drop_last()).push(s.last()),
{
    let t = s.drop_last();
    lemma_split_runs_shape(t);
    let runs = split_runs(t);
    let pre = runs.drop_last();
    assert(runs =~= pre.push(runs.last()));
    pre.lemma_flatten_push(runs.last());
    let toks = number_tokens_spec(s);
    assert(toks =~= pre.push(runs.last().push(s.last())));
    pre.lemma_flatten_push(runs.last().push(s.last()));
    assert(toks.flatten() =~= runs.flatten().push(s.last()));
}

/// The texts of a sequence of character vectors.
pub open spec fn token_texts(tokens: Seq<Vec<char>>) -> Seq<Seq<char>> {
    tokens.map_values(|t: Vec<char>| t@)
}

proof fn lemma_split_runs_nonempty(s: Seq<char>)
    ensures
        split_runs(s).len() >= 1,
    decreases s.len(),
{
    if s.len() > 0 {
        lemma_split_runs_nonempty(s.drop_last());
    }
}

/// Splits `chars[start..]` into the number tokens that the OBJ loader
/// parses: every character that is neither numeric nor `.` nor `-` ends a
/// token (possibly an empty one), and the last character of the slice is
/// always appended to the final token.
pub fn number_tokens(chars: &Vec<char>, start: usize) -> (tokens: Vec<Vec<char>>)
    requires
        start < chars.len(),
    ensures
        token_texts(tokens@) == number_tokens_spec(chars@.skip(start as int)),
{
    let ghost s = chars@.skip(start as int);
    let end = chars.len() - 1;
    let mut tokens: Vec<Vec<char>> = Vec::new();
    let mut current: Vec<char> = Vec::new();
    let mut i = start;
    proof {
        assert(s.take(0) =~= Seq::<char>::empty());
    }
    while i < end
        invariant
            start <= i <= end,
            end == chars.len() - 1,
            s == chars@.skip(start as int),
            token_texts(tokens@).push(current@) == split_runs(s.take(i - start)),
        decreases end - i,
    {
        let c = chars[i];
        let ghost before = s.take(i - start);
        assert(s.take(i + 1 - start).drop_last() =~= before);
        assert(s.take(i + 1 - start).last() == c);
        if is_numeric(c) || c == '.' || c == '-' {
            current.push(c);
            proof {
                lemma_split_runs_nonempty(before);
                assert(token_texts(tokens@).push(current@) =~= split_runs(s.take(i + 1 - start)));
            }
        } else {
            let ghost old_tokens = token_texts(tokens@);
            let ghost old_current = current@;
            tokens.push(current);
            current = Vec::new();
            proof {
                assert(token_texts(tokens@) =~= old_tokens.push(old_current));
                assert(token_texts(tokens@).push(current@) =~= split_runs(s.take(i + 1 - start)));
            }
        }
        i = i + 1;
    }
    let ghost body = s.take(end - start);
    assert(body =~= s.drop_last());
    current.push(chars[end]);
    let ghost old_tokens = token_texts(tokens@);
    let ghost cur = current@;
    tokens.push(current);
    proof {
        lemma_split_runs_nonempty(body);
        assert(s.last() == chars@[end as int]);
        assert(token_texts(tokens@) =~= old_tokens.push(cur));
        assert(token_texts(tokens@) =~= number_tokens_spec(s));
    }
    tokens
}

/// What an OBJ line holds, as told by its first characters.
#[derive(Clone, Copy, Debug, PartialEq, Eq, Structural)]
pub enum ObjLineKind {
    /// `vt ...`: a texture coordinate.
    TexCoord,
    /// `v...` other than `vt`: a vertex position.
    Vertex,
    /// `f ...`: a triangle.
    Face,
    /// Anything else; ignored.
    Other,
}

/// The kind of a non-empty OBJ line.
pub open spec fn obj_line_kind(line: Seq<char>) -> ObjLineKind {
    if line[0] == 'v' {
        if line[1] == 't' {
            ObjLineKind::TexCoord
        } else {
            ObjLineKind::Vertex
        }
    } else if line[0] == 'f' {
        ObjLineKind::Face
    } else {
        ObjLineKind::Other
    }
}

/// Where the numbers of a line of the given kind start: after `vt ` for
/// texture coordinates, after the two-character prefix otherwise.
pub open spec fn tokens_start(kind: ObjLineKind) -> int {
    match kind {
        ObjLineKind::TexCoord => 3,
        ObjLineKind::Vertex => 2,
        ObjLineKind::Face => 2,
        ObjLineKind::Other => 0,
    }
}

/// The lines the loader can read: non-empty, a `v` line has a second
/// character, and a line that carries numbers has at least one character
/// where its numbers start.
pub open spec fn obj_line_readable(line: Seq<char>) -> bool {
    &&& line.len() > 0
    &&& line[0] == 'v' ==> line.len() > 1
    &&& obj_line_kind(line) != ObjLineKind::Other ==> tokens_start(obj_line_kind(line)) < line.len()
}

/// An OBJ line split into its kind and its number tokens.
pub struct ObjLine {
    pub kind: ObjLineKind,
    pub tokens: Vec<Vec<char>>,
}

/// Tells whether the loader can read a line (see `obj_line_readable`).
pub fn obj_line_is_readable(line: &Vec<char>) -> (b: bool)
    ensures
        b == obj_line_readable(line@),
{
    if line.len() == 0 {
        return false;
    }
    if line[0] == 'v' {
        if line.len() < 2 {
            return false;
        }
        if line[1] == 't' {
            line.len() > 3
        } else {
            line.len() > 2
        }
    } else if line[0] == 'f' {
        line.len() > 2
    } else {
        true
    }
}

/// Reads one OBJ line: its kind and, for a line that carries numbers, the
/// number tokens of the characters after its prefix.
pub fn classify_obj_line(line: &Vec<char>) -> (r: ObjLine)
    requires
        obj_line_readable(line@),
    ensures
        r.kind == obj_line_kind(line@),
        r.kind == ObjLineKind::Other ==> r.tokens@.len() == 0,
        r.kind != ObjLineKind::Other ==> token_texts(r.tokens@) == number_tokens_spec(
            line@.skip(tokens_start(r.kind)),
        ),
{
    if line[0] == 'v' {
        if line[1] == 't' {
            ObjLine { kind: ObjLineKind::TexCoord, tokens: number_tokens(line, 3) }
        } else {
            ObjLine { kind: ObjLineKind::Vertex, tokens: number_tokens(line, 2) }
        }
    } else if line[0] == 'f' {
        ObjLine { kind: ObjLineKind::Face, tokens: number_tokens(line, 2) }
    } else {
        ObjLine { kind: ObjLineKind::Other, tokens: Vec::new() }
    }
}

/// A triangle of an OBJ mesh: three corner positions and the texture
/// coordinates of those corners.
#[derive(Clone, Copy, Debug)]
pub struct ObjFace<V, T> {
    pub first: V,
    pub second: V,
    pub third: V,
    pub uv_first: T,
    pub uv_second: T,
    pub uv_third: T,
}

/// A mesh read from OBJ lines: the positions and texture coordinates read
/// so far, and the triangles assembled from them. Positions and texture
/// coordinates are carried as they are; only their order matters here.
pub struct ObjMesh<V, T> {
    vertices: Vec<V>,
    tex_coords: Vec<T>,
    faces: Vec<ObjFace<V, T>>,
}

/// The triangle whose corners are the 1-based indices `idx[0]`, `idx[2]`,
/// `idx[4]` into `vertices` and whose texture coordinates are `idx[1]`,
/// `idx[3]`, `idx[5]` into `tex_coords`.
pub open spec fn face_at<V, T>(vertices: Seq<V>, tex_coords: Seq<T>, idx: Seq<usize>) -> ObjFace<V, T> {
    ObjFace {
        first: vertices[idx[0] - 1],
        second: vertices[idx[2] - 1],
        third: vertices[idx[4] - 1],
        uv_first: tex_coords[idx[1] - 1],
        uv_second: tex_coords[idx[3] - 1],
        uv_third: tex_coords[idx[5] - 1],
    }
}

/// Whether six 1-based face indices point at read positions (even places)
/// and texture coordinates (odd places).
pub open spec fn face_indices_valid(vertex_count: nat, tex_count: nat, idx: Seq<usize>) -> bool {
    &&& idx.len() == 6
    &&& forall|k: int| 0 <= k < 6 && k % 2 == 0 ==> 1 <= #[trigger] idx[k] <= vertex_count
    &&& forall|k: int| 0 <= k < 6 && k % 2 == 1 ==> 1 <= #[trigger] idx[k] <= tex_count
}

impl<V: Copy, T: Copy> ObjMesh<V, T> {
    pub closed spec fn vertices(&self) -> Seq<V> {
        self.vertices@
    }

    pub closed spec fn tex_coords(&self) -> Seq<T> {
        self.tex_coords@
    }

    pub closed spec fn faces(&self) -> Seq<ObjFace<V, T>> {
        self.faces@
    }

    /// Every corner of every triangle is one of the read positions and
    /// every corner's texture coordinate one of the read texture
    /// coordinates.
    pub open spec fn wf(&self) -> bool {
        forall|k: int|
            0 <= k < self.faces().len() ==> {
                let f = #[trigger] self.faces()[k];
                &&& self.vertices().contains(f.first)
                &&& self.vertices().contains(f.second)
                &&& self.vertices().contains(f.third)
                &&& self.tex_coords().contains(f.uv_first)
                &&& self.tex_coords().contains(f.uv_second)
                &&& self.tex_coords().contains(f.uv_third)
            }
    }

    /// An empty mesh.
    pub fn new() -> (m: Self)
        ensures
            m.wf(),
            m.vertices().len() == 0,
            m.tex_coords().len() == 0,
            m.faces().len() == 0,
    {
        ObjMesh { vertices: Vec::new(), tex_coords: Vec::new(), faces: Vec::new() }
    }

    /// Records a position read from a `v` line.
    pub fn push_vertex(&mut self, v: V)
        requires
            old(self).wf(),
        ensures
            final(self).wf(),
            final(self).vertices() == old(self).vertices().push(v),
            final(self).tex_coords() == old(self).tex_coords(),
            final(self).faces() == old(self).faces(),
    {
        let ghost prev = self.vertices@;
        self.vertices.push(v);
        proof {
            assert forall|x: V| prev.contains(x) implies self.vertices@.contains(x) by {
                let i = choose|i: int| 0 <= i < prev.len() && prev[i] == x;
                assert(self.vertices@[i] == x);
            }
            assert forall|k: int| 0 <= k < self.faces@.len() implies {
                let f = #[trigger] self.faces@[k];
                &&& self.vertices@.contains(f.first)
                &&& self.vertices@.contains(f.second)
                &&& self.vertices@.contains(f.third)
                &&& self.tex_coords@.contains(f.uv_first)
                &&& self.tex_coords@.contains(f.uv_second)
                &&& self.tex_coords@.contains(f.uv_third)
            } by {
                let f = self.faces@[k];
                assert(old(self).faces()[k] == f);
                assert(prev.contains(f.first));
                assert(prev.contains(f.second));
                assert(prev.contains(f.third));
            }
        }
    }

    /// Records a texture coordinate read from a `vt` line.
    pub fn push_tex_coord(&mut self, t: T)
        requires
            old(self).wf(),
        ensures
            final(self).wf(),
            final(self).tex_coords() == old(self).tex_coords().push(t),
            final(self).vertices() == old(self).vertices(),
            final(self).faces() == old(self).faces(),
    {
        let ghost prev = self.tex_coords@;
        self.tex_coords.push(t);
        proof {
            assert forall|x: T| prev.contains(x) implies self.tex_coords@.contains(x) by {
                let i = choose|i: int| 0 <= i < prev.len() && prev[i] == x;
                assert(self.tex_coords@[i] == x);
            }
            assert forall|k: int| 0 <= k < self.faces@.len() implies {
                let f = #[trigger] self.faces@[k];
                &&& self.vertices@.contains(f.first)
                &&& self.vertices@.contains(f.second)
                &&& self.vertices@.contains(f.third)
                &&& self.tex_coords@.contains(f.uv_first)
                &&& self.tex_coords@.contains(f.uv_second)
                &&& self.tex_coords@.contains(f.uv_third)
            } by {
                let f = self.faces@[k];
                assert(old(self).faces()[k] == f);
                assert(prev.contains(f.uv_first));
                assert(prev.contains(f.uv_second));
                assert(prev.contains(f.uv_third));
            }
        }
    }

    /// Tells whether six face indices of an `f` line point at positions
    /// and texture coordinates read so far.
    pub fn face_indices_in_range(&self, idx: &[usize; 6]) -> (b: bool)
        ensures
            b == face_indices_valid(self.vertices().len(), self.tex_coords().len(), idx@),
            b <==> (1 <= idx[0] <= self.vertices().len() && 1 <= idx[2] <= self.vertices().len()
                && 1 <= idx[4] <= self.vertices().len() && 1 <= idx[1] <= self.tex_coords().len()
                && 1 <= idx[3] <= self.tex_coords().len() && 1 <= idx[5]
                <= self.tex_coords().len()),
    {
        let nv = self.vertices.len();
        let nt = self.tex_coords.len();
        let ok = 1 <= idx[0] && idx[0] <= nv && 1 <= idx[2] && idx[2] <= nv && 1 <= idx[4]
            && idx[4] <= nv && 1 <= idx[1] && idx[1] <= nt && 1 <= idx[3] && idx[3] <= nt && 1
            <= idx[5] && idx[5] <= nt;
        proof {
            if ok {
                assert forall|k: int| 0 <= k < 6 && k % 2 == 0 implies 1 <= #[trigger] idx@[k] <= nv by {
                    assert(k == 0 || k == 2 || k == 4);
                }
                assert forall|k: int| 0 <= k < 6 && k % 2 == 1 implies 1 <= #[trigger] idx@[k] <= nt by {
                    assert(k == 1 || k == 3 || k == 5);
                }
            } else {
                if face_indices_valid(nv as nat, nt as nat, idx@) {
                    assert(1 <= idx@[0] <= nv);
                    assert(1 <= idx@[2] <= nv);
                    assert(1 <= idx@[4] <= nv);
                    assert(1 <= idx@[1] <= nt);
                    assert(1 <= idx@[3] <= nt);
                    assert(1 <= idx@[5] <= nt);
                }
            }
        }
        ok
    }

    /// Assembles the triangle of an `f v1/t1 v2/t2 v3/t3` line from its six
    /// 1-based indices, in the order `v1 t1 v2 t2 v3 t3`.
    pub fn push_face(&mut self, idx: [usize; 6])
        requires
            old(self).wf(),
            face_indices_valid(old(self).vertices().len(), old(self).tex_coords().len(), idx@),
        ensures
            final(self).wf(),
            final(self).faces() == old(self).faces().push(
                face_at(old(self).vertices(), old(self).tex_coords(), idx@),
            ),
            final(self).vertices() == old(self).vertices(),
            final(self).tex_coords() == old(self).tex_coords(),
            final(self).faces().last().first == old(self).vertices()[idx[0] - 1],
            final(self).faces().last().second == old(self).vertices()[idx[2] - 1],
            final(self).faces().last().third == old(self).vertices()[idx[4] - 1],
            final(self).faces().last().uv_first == old(self).tex_coords()[idx[1] - 1],
            final(self).faces().last().uv_second == old(self).tex_coords()[idx[3] - 1],
            final(self).faces().last().uv_third == old(self).tex_coords()[idx[5] - 1],
    {
        assert(1 <= idx@[0] <= self.vertices@.len());
        assert(1 <= idx@[2] <= self.vertices@.len());
        assert(1 <= idx@[4] <= self.vertices@.len());
        assert(1 <= idx@[1] <= self.tex_coords@.len());
        assert(1 <= idx@[3] <= self.tex_coords@.len());
        assert(1 <= idx@[5] <= self.tex_coords@.len());
        let face = ObjFace {
            first: self.vertices[idx[0] - 1],
            second: self.vertices[idx[2] - 1],
            third: self.vertices[idx[4] - 1],
            uv_first: self.tex_coords[idx[1] - 1],
            uv_second: self.tex_coords[idx[3] - 1],
            uv_third: self.tex_coords[idx[5] - 1],
        };
        let ghost prev = self.faces@;
        self.faces.push(face);
        proof {
            assert(self.vertices@[idx@[0] - 1] == face.first);
            assert(self.vertices@[idx@[2] - 1] == face.second);
            assert(self.vertices@[idx@[4] - 1] == face.third);
            assert(self.tex_coords@[idx@[1] - 1] == face.uv_first);
            assert(self.tex_coords@[idx@[3] - 1] == face.uv_second);
            assert(self.tex_coords@[idx@[5] - 1] == face.uv_third);
            assert forall|k: int| 0 <= k < self.faces@.len() implies {
                let f = #[trigger] self.faces@[k];
                &&& self.vertices@.contains(f.first)
                &&& self.vertices@.contains(f.second)
                &&& self.vertices@.contains(f.third)
                &&& self.tex_coords@.contains(f.uv_first)
                &&& self.tex_coords@.contains(f.uv_second)
                &&& self.tex_coords@.contains(f.uv_third)
            } by {
                if k < prev.len() {
                    assert(self.faces@[k] == prev[k]);
                    assert(old(self).faces()[k] == prev[k]);
                } else {
                    assert(self.faces@[k] == face);
                    assert(self.vertices@.contains(face.first));
                    assert(self.vertices@.contains(face.second));
                    assert(self.vertices@.contains(face.third));
                    assert(self.tex_coords@.contains(face.uv_first));
                    assert(self.tex_coords@.contains(face.uv_second));
                    assert(self.tex_coords@.contains(face.uv_third));
                }
            }
        }
    }

    /// The number of triangles assembled so far.
    pub fn face_count(&self) -> (n: usize)
        ensures
            n == self.faces().len(),
    {
        self.faces.len()
    }

    /// The assembled triangles, in the order of their `f` lines.
    pub fn into_faces(self) -> (faces: Vec<ObjFace<V, T>>)
        ensures
            faces@ == self.faces(),
    {
        self.faces
    }
}

/// Law of the mesh: in a mesh that every operation has kept well formed,
/// each corner of each triangle is a position that was read, and each of
/// its texture coordinates one that was read.
pub proof fn lemma_face_corners_were_read<V: Copy, T: Copy>(mesh: ObjMesh<V, T>, k: int)
    requires
        mesh.wf(),
        0 <= k < mesh.faces().len(),
    ensures
        mesh.vertices().contains(mesh.faces()[k].first),
        mesh.vertices().contains(mesh.faces()[k].second),
        mesh.vertices().contains(mesh.faces()[k].third),
        mesh.tex_coords().contains(mesh.faces()[k].uv_first),
        mesh.tex_coords().contains(mesh.faces()[k].uv_second),
        mesh.tex_coords().contains(mesh.faces()[k].uv_third),
{
    let f = mesh.faces()[k];
}

/// Law of face assembly: each corner of an assembled triangle is the
/// position named by its position index, and its texture coordinate is the
/// one named by the index that follows it (`v1/t1 v2/t2 v3/t3`).
pub proof fn lemma_face_corners_follow_indices<V, T>(vertices: Seq<V>, tex_coords: Seq<T>, idx: Seq<usize>)
    ensures
        face_at(vertices, tex_coords, idx).first == vertices[idx[0] - 1],
        face_at(vertices, tex_coords, idx).second == vertices[idx[2] - 1],
        face_at(vertices, tex_coords, idx).third == vertices[idx[4] - 1],
        face_at(vertices, tex_coords, idx).uv_first == tex_coords[idx[1] - 1],
        face_at(vertices, tex_coords, idx).uv_second == tex_coords[idx[3] - 1],
        face_at(vertices, tex_coords, idx).uv_third == tex_coords[idx[5] - 1],
{
}

/// Law of face indices: six indices are accepted exactly when the position
/// indices (places 0, 2, 4) lie in `1..=vertex_count` and the texture
/// indices (places 1, 3, 5) lie in `1..=tex_count`, each list bounding only
/// its own indices.
pub proof fn lemma_face_indices_valid_exactly(vertex_count: nat, tex_count: nat, idx: Seq<usize>)
    requires
        idx.len() == 6,
    ensures
        face_indices_valid(vertex_count, tex_count, idx) <==> (1 <= idx[0] <= vertex_count && 1
            <= idx[2] <= vertex_count && 1 <= idx[4] <= vertex_count && 1 <= idx[1] <= tex_count
            && 1 <= idx[3] <= tex_count && 1 <= idx[5] <= tex_count),
{
    if 1 <= idx[0] <= vertex_count && 1 <= idx[2] <= vertex_count && 1 <= idx[4] <= vertex_count
        && 1 <= idx[1] <= tex_count && 1 <= idx[3] <= tex_count && 1 <= idx[5] <= tex_count {
        assert forall|k: int| 0 <= k < 6 && k % 2 == 0 implies 1 <= #[trigger] idx[k] <= vertex_count by {
            assert(k == 0 || k == 2 || k == 4);
        }
        assert forall|k: int| 0 <= k < 6 && k % 2 == 1 implies 1 <= #[trigger] idx[k] <= tex_count by {
            assert(k == 1 || k == 3 || k == 5);
        }
    }
    if face_indices_valid(vertex_count, tex_count, idx) {
        assert(1 <= idx[0] <= vertex_count);
        assert(1 <= idx[2] <= vertex_count);
        assert(1 <= idx[4] <= vertex_count);
        assert(1 <= idx[1] <= tex_count);
        assert(1 <= idx[3] <= tex_count);
        assert(1 <= idx[5] <= tex_count);
    }
}

/// The separator characters of `s` (those not kept), in order.
pub open spec fn separators(s: Seq<char>) -> Seq<char>
    decreases s.len(),
{
    if s.len() == 0 {
        Seq::empty()
    } else if keeps_char(s.last()) {
        separators(s.drop_last())
    } else {
        separators(s.drop_last()).push(s.last())
    }
}

/// The pieces joined back together with the separators between them:
/// `pieces[0] + seps[0] + pieces[1] + ... + pieces[last]`.
pub open spec fn interleave(pieces: Seq<Seq<char>>, seps: Seq<char>) -> Seq<char>
    decreases pieces.len(),
{
    if pieces.len() == 0 {
        Seq::empty()
    } else if pieces.len() == 1 {
        pieces[0]
    } else {
        interleave(pieces.drop_last(), seps.drop_last()) + seq![seps.last()] + pieces.last()
    }
}

/// Law of the runs: the runs consist of kept characters only, there is one
/// more run than separators, and putting the separators back between the
/// runs gives the text back. So each run is exactly the characters between
/// two consecutive separators.
pub proof fn lemma_split_runs_rebuild(s: Seq<char>)
    ensures
        split_runs(s).len() == separators(s).len() + 1,
        interleave(split_runs(s), separators(s)) == s,
        forall|i: int, j: int|
            0 <= i < split_runs(s).len() && 0 <= j < split_runs(s)[i].len() ==> keeps_char(
                #[trigger] split_runs(s)[i][j],
            ),
    decreases s.len(),
{
    if s.len() == 0 {
        assert(interleave(seq![Seq::<char>::empty()], Seq::empty()) =~= s);
    } else {
        let t = s.drop_last();
        lemma_split_runs_rebuild(t);
        let runs = split_runs(t);
        let seps = separators(t);
        let c = s.last();
        assert(s =~= t.push(c));
        if keeps_char(c) {
            let upd = runs.update(runs.len() - 1, runs.last().push(c));
            if runs.len() == 1 {
                assert(interleave(upd, seps) =~= s);
            } else {
                assert(upd.drop_last() =~= runs.drop_last());
                assert(interleave(upd, seps) =~= interleave(runs, seps).push(c));
            }
            assert forall|i: int, j: int|
                0 <= i < upd.len() && 0 <= j < upd[i].len() implies keeps_char(#[trigger] upd[i][j]) by {
                if i < runs.len() - 1 {
                    assert(upd[i] == runs[i]);
                } else if j < runs.last().len() {
                    assert(upd[i][j] == runs[i][j]);
                }
            }
        } else {
            let pushed = runs.push(Seq::empty());
            assert(pushed.drop_last() =~= runs);
            assert(seps.push(c).drop_last() =~= seps);
            assert(interleave(pushed, seps.push(c)) =~= interleave(runs, seps) + seq![c]);
            assert forall|i: int, j: int|
                0 <= i < pushed.len() && 0 <= j < pushed[i].len() implies keeps_char(#[trigger] pushed[i][j]) by {
                assert(pushed[i] == runs[i]);
            }
        }
    }
}

/// Law of the tokenizer: putting the separators of all but the last
/// character back between the tokens gives the slice back, and every
/// character of every token is kept, but for the slice's last character,
/// which ends the final token whatever it is. So each token is exactly the
/// run between two consecutive separators.
pub proof fn lemma_number_tokens_rebuild(s: Seq<char>)
    requires
        s.len() > 0,
    ensures
        number_tokens_spec(s).len() == separators(s.drop_last()).len() + 1,
        interleave(number_tokens_spec(s), separators(s.drop_last())) == s,
        forall|i: int, j: int|
            0 <= i < number_tokens_spec(s).len() && 0 <= j < number_tokens_spec(s)[i].len() && !(i
                == number_tokens_spec(s).len() - 1 && j == number_tokens_spec(s)[i].len() - 1)
                ==> keeps_char(#[trigger] number_tokens_spec(s)[i][j]),
        number_tokens_spec(s).last().last() == s.last(),
{
    let t = s.drop_last();
    lemma_split_runs_rebuild(t);
    let runs = split_runs(t);
    let seps = separators(t);
    let toks = number_tokens_spec(s);
    let c = s.last();
    assert(s =~= t.push(c));
    if runs.len() == 1 {
        assert(interleave(toks, seps) =~= s);
    } else {
        assert(toks.drop_last() =~= runs.drop_last());
        assert(interleave(toks, seps) =~= interleave(runs, seps).push(c));
    }
    assert forall|i: int, j: int|
        0 <= i < toks.len() && 0 <= j < toks[i].len() && !(i == toks.len() - 1 && j == toks[i].len() - 1)
        implies keeps_char(#[trigger] toks[i][j]) by {
        if i < runs.len() - 1 {
            assert(toks[i] == runs[i]);
        } else {
            assert(toks[i][j] == runs[i][j]);
        }
    }
}

} // verus!

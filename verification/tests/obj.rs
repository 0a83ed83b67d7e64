use renderenko::obj::{
    classify_obj_line, number_tokens, obj_line_is_readable, ObjLineKind, ObjMesh,
};

fn chars(s: &str) -> Vec<char> {
    s.chars().collect()
}

fn texts(tokens: &[Vec<char>]) -> Vec<String> {
    tokens.iter().map(|t| t.iter().collect()).collect()
}

#[test]
fn tokens_of_plain_numbers() {
    assert_eq!(texts(&number_tokens(&chars("1.5 -2 3"), 0)), vec!["1.5", "-2", "3"]);
}

#[test]
fn tokens_of_face_indices() {
    assert_eq!(
        texts(&number_tokens(&chars("f 1/2 3/4 5/6"), 2)),
        vec!["1", "2", "3", "4", "5", "6"]
    );
}

#[test]
fn tokens_keep_empty_runs() {
    assert_eq!(texts(&number_tokens(&chars("1  2"), 0)), vec!["1", "", "2"]);
    assert_eq!(texts(&number_tokens(&chars(" 0 1"), 0)), vec!["", "0", "1"]);
}

#[test]
fn last_char_always_joins_final_token() {
    assert_eq!(texts(&number_tokens(&chars("1 2x"), 0)), vec!["1", "2x"]);
    assert_eq!(texts(&number_tokens(&chars("1 2 "), 0)), vec!["1", "2 "]);
    assert_eq!(texts(&number_tokens(&chars("7"), 0)), vec!["7"]);
}

#[test]
fn unicode_numerals_are_kept() {
    assert_eq!(texts(&number_tokens(&chars("½ 3"), 0)), vec!["½", "3"]);
}

#[test]
fn token_count_is_separators_plus_one() {
    for line in ["1 2 3", "a b", "1/2/3 4", "12", "--5..6 7"] {
        let cs = chars(line);
        let body = &cs[..cs.len() - 1];
        let separators = body
            .iter()
            .filter(|c| !(c.is_numeric() || **c == '.' || **c == '-'))
            .count();
        let tokens = number_tokens(&cs, 0);
        assert_eq!(tokens.len(), separators + 1);
        let joined: String = tokens.iter().flatten().collect();
        let kept: String = body
            .iter()
            .filter(|c| c.is_numeric() || **c == '.' || **c == '-')
            .chain(std::iter::once(&cs[cs.len() - 1]))
            .collect();
        assert_eq!(joined, kept);
    }
}

#[test]
fn line_kinds() {
    let vt = classify_obj_line(&chars("vt 0.5 0.25"));
    assert_eq!(vt.kind, ObjLineKind::TexCoord);
    assert_eq!(texts(&vt.tokens), vec!["0.5", "0.25"]);
    let v = classify_obj_line(&chars("v 1 2 3"));
    assert_eq!(v.kind, ObjLineKind::Vertex);
    assert_eq!(texts(&v.tokens), vec!["1", "2", "3"]);
    let vn = classify_obj_line(&chars("vn 0 1 0"));
    assert_eq!(vn.kind, ObjLineKind::Vertex);
    assert_eq!(texts(&vn.tokens), vec!["", "0", "1", "0"]);
    let f = classify_obj_line(&chars("f 1/1 2/2 3/3"));
    assert_eq!(f.kind, ObjLineKind::Face);
    assert_eq!(texts(&f.tokens), vec!["1", "1", "2", "2", "3", "3"]);
    let other = classify_obj_line(&chars("# comment"));
    assert_eq!(other.kind, ObjLineKind::Other);
    assert!(other.tokens.is_empty());
}

#[test]
fn readable_lines() {
    assert!(!obj_line_is_readable(&chars("")));
    assert!(!obj_line_is_readable(&chars("v")));
    assert!(!obj_line_is_readable(&chars("v ")));
    assert!(obj_line_is_readable(&chars("v 1")));
    assert!(!obj_line_is_readable(&chars("vt ")));
    assert!(obj_line_is_readable(&chars("vt 1")));
    assert!(!obj_line_is_readable(&chars("f ")));
    assert!(obj_line_is_readable(&chars("f 1")));
    assert!(obj_line_is_readable(&chars("x")));
    assert!(obj_line_is_readable(&chars("o cube")));
}

#[test]
fn mesh_assembles_faces_from_indices() {
    let mut mesh: ObjMesh<(i32, i32, i32), (u8, u8)> = ObjMesh::new();
    mesh.push_vertex((0, 0, 0));
    mesh.push_vertex((1, 0, 0));
    mesh.push_vertex((0, 1, 0));
    mesh.push_tex_coord((0, 0));
    mesh.push_tex_coord((1, 1));
    assert!(mesh.face_indices_in_range(&[1, 2, 2, 1, 3, 2]));
    mesh.push_face([1, 2, 2, 1, 3, 2]);
    mesh.push_face([3, 1, 3, 1, 3, 1]);
    assert_eq!(mesh.face_count(), 2);
    let faces = mesh.into_faces();
    assert_eq!(faces[0].first, (0, 0, 0));
    assert_eq!(faces[0].second, (1, 0, 0));
    assert_eq!(faces[0].third, (0, 1, 0));
    assert_eq!(faces[0].uv_first, (1, 1));
    assert_eq!(faces[0].uv_second, (0, 0));
    assert_eq!(faces[0].uv_third, (1, 1));
    assert_eq!(faces[1].first, (0, 1, 0));
    assert_eq!(faces[1].uv_third, (0, 0));
}

#[test]
fn face_indices_out_of_range() {
    let mut mesh: ObjMesh<u8, u8> = ObjMesh::new();
    mesh.push_vertex(1);
    mesh.push_tex_coord(2);
    assert!(mesh.face_indices_in_range(&[1, 1, 1, 1, 1, 1]));
    assert!(!mesh.face_indices_in_range(&[0, 1, 1, 1, 1, 1]));
    assert!(!mesh.face_indices_in_range(&[1, 1, 2, 1, 1, 1]));
    assert!(!mesh.face_indices_in_range(&[1, 1, 1, 1, 1, 2]));
}

use vstd::prelude::*;
use vstd::string::StringExecFns;

use crate::text::{decimal_text, push_decimal};

verus! {

/// Whether a character is a lower-case hexadecimal digit.
pub open spec fn is_lower_hex(c: char) -> bool {
    ('0' <= c && c <= '9') || ('a' <= c && c <= 'f')
}

/// The shape of a random (version 4) UUID in its hyphenated lower-case
/// text form: `xxxxxxxx-xxxx-4xxx-yxxx-xxxxxxxxxxxx`, with `y` one of
/// `8`, `9`, `a`, `b`.
pub open spec fn is_uuid_v4_text(s: Seq<char>) -> bool {
    &&& s.len() == 36
    &&& forall|i: int|
        0 <= i < 36 ==> (if i == 8 || i == 13 || i == 18 || i == 23 {
            s[i] == '-'
        } else {
            is_lower_hex(#[trigger] s[i])
        })
    &&& s[14] == '4'
    &&& (s[19] == '8' || s[19] == '9' || s[19] == 'a' || s[19] == 'b')
}

/// The name under which a rendered image of the given size is saved:
/// `{id}-w_{width}_h_{height}.png`.
pub open spec fn image_file_name_text(id: Seq<char>, width: nat, height: nat) -> Seq<char> {
    id + "-w_"@ + decimal_text(width) + "_h_"@ + decimal_text(height) + ".png"@
}

/// Calls `uuid::Uuid::new_v4` and turns the id into text with its
/// `Display` impl, which writes the hyphenated lower-case form. The id is
/// random: the contract states only the shape that every such text has
/// (version nibble 4, RFC 4122 variant), not which id comes back.
#[verifier::external_body]
fn random_uuid_text() -> (s: String)
    ensures
        is_uuid_v4_text(s@),
{
    uuid::Uuid::new_v4().to_string()
}

/// Builds the file name `{id}-w_{width}_h_{height}.png` under which a
/// rendered image is saved.
pub fn image_file_name(id: &str, width: u32, height: u32) -> (name: String)
    ensures
        name@ == image_file_name_text(id@, width as nat, height as nat),
{
    let mut name = String::from_str(id);
    name.append("-w_");
    push_decimal(&mut name, width);
    name.append("_h_");
    push_decimal(&mut name, height);
    name.append(".png");
    assert(name@ =~= image_file_name_text(id@, width as nat, height as nat));
    name
}

/// A fresh file name for a rendered image of the given size, keyed by a
/// random UUID.
pub fn fresh_image_file_name(width: u32, height: u32) -> (name: String)
    ensures
        exists|id: Seq<char>|
            is_uuid_v4_text(id) && name@ == image_file_name_text(id, width as nat, height as nat),
{
    let id = random_uuid_text();
    let name = image_file_name(id.as_str(), width, height);
    assert(is_uuid_v4_text(id@) && name@ == image_file_name_text(id@, width as nat, height as nat));
    name
}

/// Two ids of the same length (as every UUID text is) give different file
/// names for the same image size: names keyed by distinct UUIDs never clash.
pub proof fn lemma_distinct_ids_distinct_names(id1: Seq<char>, id2: Seq<char>, width: nat, height: nat)
    requires
        id1.len() == id2.len(),
        id1 != id2,
    ensures
        image_file_name_text(id1, width, height) != image_file_name_text(id2, width, height),
{
    let n1 = image_file_name_text(id1, width, height);
    let n2 = image_file_name_text(id2, width, height);
    if n1 == n2 {
        assert(n1.subrange(0, id1.len() as int) =~= id1);
        assert(n2.subrange(0, id2.len() as int) =~= id2);
    }
}

} // verus!

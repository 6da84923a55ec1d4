//! Decimal rendering of indices and the identifiers built from them.

use vstd::prelude::*;

verus! {

/// The character of a decimal digit.
pub open spec fn digit_char(d: nat) -> char {
    (48 + d) as char
}

/// The shortest decimal representation of `n`, most significant digit first.
pub open spec fn decimal(n: nat) -> Seq<char>
    decreases n,
{
    if n < 10 {
        seq![digit_char(n)]
    } else {
        decimal(n / 10).push(digit_char(n % 10))
    }
}

fn digit_str(d: usize) -> (s: &'static str)
    requires
        d < 10,
    ensures
        s@ == seq![digit_char(d as nat)],
{
    proof {
        reveal_strlit("0");
        reveal_strlit("1");
        reveal_strlit("2");
        reveal_strlit("3");
        reveal_strlit("4");
        reveal_strlit("5");
        reveal_strlit("6");
        reveal_strlit("7");
        reveal_strlit("8");
        reveal_strlit("9");
    }
    match d {
        0 => "0",
        1 => "1",
        2 => "2",
        3 => "3",
        4 => "4",
        5 => "5",
        6 => "6",
        7 => "7",
        8 => "8",
        _ => "9",
    }
}

/// Renders `n` in decimal, as `format!("{n}")` does.
pub fn decimal_string(n: usize) -> (s: String)
    ensures
        s@ == decimal(n as nat),
    decreases n,
{
    if n < 10 {
        String::from_str(digit_str(n))
    } else {
        let mut s = decimal_string(n / 10);
        s.append(digit_str(n % 10));
        s
    }
}

} // verus!

verus! {

/// The identifier under which material `index` of mesh `mesh_id` is registered.
pub open spec fn material_id_spec(mesh_id: Seq<char>, index: nat) -> Seq<char> {
    mesh_id + "_mat_"@ + decimal(index)
}

/// Formats `"{mesh_id}_mat_{index}"`, the id a submesh's material is looked up under.
pub fn material_id(mesh_id: &str, index: usize) -> (s: String)
    ensures
        s@ == material_id_spec(mesh_id@, index as nat),
{
    let mut s = String::from_str(mesh_id);
    s.append("_mat_");
    let digits = decimal_string(index);
    s.append(digits.as_str());
    s
}

/// Every decimal rendering has at least one digit.
pub proof fn lemma_decimal_nonempty(n: nat)
    ensures
        decimal(n).len() >= 1,
        n >= 10 ==> decimal(n).len() >= 2,
    decreases n,
{
    if n >= 10 {
        lemma_decimal_nonempty(n / 10);
    }
}

/// Distinct numbers have distinct decimal renderings.
pub proof fn lemma_decimal_injective(a: nat, b: nat)
    requires
        decimal(a) == decimal(b),
    ensures
        a == b,
    decreases a,
{
    lemma_decimal_nonempty(a / 10);
    lemma_decimal_nonempty(b / 10);
    if a < 10 && b < 10 {
        assert(decimal(a)[0] == digit_char(a));
        assert(decimal(b)[0] == digit_char(b));
        assert((48 + a) as char as int == 48 + a);
        assert((48 + b) as char as int == 48 + b);
    } else if a < 10 {
        assert(decimal(b).len() >= 2);
    } else if b < 10 {
        assert(decimal(a).len() >= 2);
    } else {
        assert(decimal(a / 10) =~= decimal(a).drop_last());
        assert(decimal(b / 10) =~= decimal(b).drop_last());
        lemma_decimal_injective(a / 10, b / 10);
        assert(decimal(a).last() == digit_char(a % 10));
        assert(decimal(b).last() == digit_char(b % 10));
        assert((48 + a % 10) as char as int == 48 + a % 10);
        assert((48 + b % 10) as char as int == 48 + b % 10);
    }
}

} // verus!

verus! {

/// The characters of an optional string.
pub open spec fn opt_string_view(s: Option<String>) -> Option<Seq<char>> {
    match s {
        Some(s) => Some(s@),
        None => None,
    }
}

} // verus!

verus! {

/// The id of an image embedded in a model file, `"embedded_image_{index}"`.
pub open spec fn embedded_image_id_spec(index: nat) -> Seq<char> {
    "embedded_image_"@ + decimal(index)
}

/// Formats `"embedded_image_{index}"`.
pub fn embedded_image_id(index: usize) -> (s: String)
    ensures
        s@ == embedded_image_id_spec(index as nat),
{
    let mut s = String::from_str("embedded_image_");
    let digits = decimal_string(index);
    s.append(digits.as_str());
    s
}

/// The name given to an unnamed material, `"material_{index}"`.
pub open spec fn default_material_name_spec(index: nat) -> Seq<char> {
    "material_"@ + decimal(index)
}

/// Formats `"material_{index}"`.
pub fn default_material_name(index: usize) -> (s: String)
    ensures
        s@ == default_material_name_spec(index as nat),
{
    let mut s = String::from_str("material_");
    let digits = decimal_string(index);
    s.append(digits.as_str());
    s
}

} // verus!

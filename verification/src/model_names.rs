//! The names the model loaders give to the meshes, materials and textures
//! they read, and which material an OBJ mesh uses.
use vstd::prelude::*;

verus! {

/// The decimal digit `d`, as a character.
pub open spec fn digit_char(d: nat) -> char {
    if d == 0 {
        '0'
    } else if d == 1 {
        '1'
    } else if d == 2 {
        '2'
    } else if d == 3 {
        '3'
    } else if d == 4 {
        '4'
    } else if d == 5 {
        '5'
    } else if d == 6 {
        '6'
    } else if d == 7 {
        '7'
    } else if d == 8 {
        '8'
    } else {
        '9'
    }
}

/// The decimal writing of `n`, without leading zeros.
pub open spec fn digits(n: nat) -> Seq<char>
    decreases n,
{
    if n < 10 {
        seq![digit_char(n)]
    } else {
        digits(n / 10) + seq![digit_char(n % 10)]
    }
}

/// `s` with every backslash turned into a slash.
pub open spec fn slashes(s: Seq<char>) -> Seq<char> {
    s.map_values(|c: char| if c == '\\' { '/' } else { c })
}

/// The text of the digit `d`.
fn digit_text(d: usize) -> (r: &'static str)
    requires
        d < 10,
    ensures
        r@ == seq![digit_char(d as nat)],
{
    proof {
        reveal_strlit("0");
        reveal_strlit("1");
        reveal_strlit("2");
        reveal_strlit("3");
        reveal_strlit("4");
        reveal_strlit("5");
        reveal_strlit("6");
        reveal_strlit("7");
        reveal_strlit("8");
        reveal_strlit("9");
    }
    if d == 0 {
        "0"
    } else if d == 1 {
        "1"
    } else if d == 2 {
        "2"
    } else if d == 3 {
        "3"
    } else if d == 4 {
        "4"
    } else if d == 5 {
        "5"
    } else if d == 6 {
        "6"
    } else if d == 7 {
        "7"
    } else if d == 8 {
        "8"
    } else {
        "9"
    }
}

/// The decimal writing of `n`, as `usize`'s `to_string` gives it.
pub fn decimal(n: usize) -> (r: String)
    ensures
        r@ == digits(n as nat),
    decreases n,
{
    if n < 10 {
        String::from_str(digit_text(n))
    } else {
        let mut r = decimal(n / 10);
        r.append(digit_text(n % 10));
        r
    }
}

/// `s` with every backslash turned into a slash.
pub fn replace_backslashes(s: &str) -> (r: String)
    ensures
        r@ == slashes(s@),
{
    proof {
        reveal_strlit("/");
    }
    let len = s.unicode_len();
    let mut r = String::new();
    let mut i: usize = 0;
    while i < len
        invariant
            len == s@.len(),
            i <= len,
            r@ == slashes(s@.take(i as int)),
            "/"@ == seq!['/'],
        decreases len - i,
    {
        if s.get_char(i) == '\\' {
            r.append("/");
        } else {
            r.append(s.substring_char(i, i + 1));
        }
        i = i + 1;
        assert(r@ =~= slashes(s@.take(i as int)));
    }
    assert(s@.take(len as int) =~= s@);
    r
}

/// The name of an OBJ material: the model's name, `-`, the material's name.
pub fn obj_material_name(model: &str, material: &str) -> (r: String)
    ensures
        r@ == model@ + seq!['-'] + material@,
{
    proof {
        reveal_strlit("-");
    }
    let mut r = String::from_str(model);
    r.append("-");
    r.append(material);
    r
}

/// The name of the OBJ mesh at position `index`: the model's name followed
/// by the position.
pub fn obj_mesh_name(model: &str, index: usize) -> (r: String)
    ensures
        r@ == model@ + digits(index as nat),
{
    let mut r = String::from_str(model);
    let number = decimal(index);
    r.append(number.as_str());
    r
}

/// The name of a texture file of an OBJ model: the model's name, `/` and the
/// file, with backslashes turned into slashes.
pub fn obj_texture_name(model: &str, file: &str) -> (r: String)
    ensures
        r@ == slashes(model@ + seq!['/'] + file@),
{
    proof {
        reveal_strlit("/");
    }
    let mut joined = String::from_str(model);
    joined.append("/");
    joined.append(file);
    replace_backslashes(joined.as_str())
}

/// The name of a texture file of a glTF model: the model's name, `/` and the
/// file's address, whose backslashes are turned into slashes.
pub fn gltf_texture_name(model: &str, uri: &str) -> (r: String)
    ensures
        r@ == model@ + seq!['/'] + slashes(uri@),
{
    proof {
        reveal_strlit("/");
    }
    let mut r = String::from_str(model);
    r.append("/");
    let file = replace_backslashes(uri);
    r.append(file.as_str());
    r
}

/// The name of a glTF material: the model's name, `.` and the material's
/// own name (or its position when it has none), with backslashes turned
/// into slashes.
pub fn gltf_material_name(model: &str, name: Option<String>, index: usize) -> (r: String)
    ensures
        r@ == slashes(
            model@ + seq!['.'] + (match name {
                Some(n) => n@,
                None => digits(index as nat),
            }),
        ),
{
    proof {
        reveal_strlit(".");
    }
    let mut joined = String::from_str(model);
    joined.append(".");
    let own = match name {
        Some(n) => n,
        None => decimal(index),
    };
    joined.append(own.as_str());
    replace_backslashes(joined.as_str())
}

/// The name of a primitive of a glTF node: the model's name, the node's name
/// (or its position when it has none) and the primitive's position, joined
/// by `.`.
pub fn gltf_mesh_name(model: &str, node: Option<String>, node_index: usize, primitive: usize) -> (r: String)
    ensures
        r@ == model@ + seq!['.'] + (match node {
            Some(n) => n@,
            None => digits(node_index as nat),
        }) + seq!['.'] + digits(primitive as nat),
{
    proof {
        reveal_strlit(".");
    }
    let mut r = String::from_str(model);
    r.append(".");
    let own = match node {
        Some(n) => n,
        None => decimal(node_index),
    };
    r.append(own.as_str());
    r.append(".");
    let number = decimal(primitive);
    r.append(number.as_str());
    r
}

/// The name of the material made for a glTF primitive that has none:
/// `Material` followed by the primitive's position.
pub fn default_material_name(primitive: usize) -> (r: String)
    ensures
        r@ == "Material"@ + digits(primitive as nat),
{
    let mut r = String::from_str("Material");
    let number = decimal(primitive);
    r.append(number.as_str());
    r
}

/// Why an OBJ mesh has no usable material.
#[derive(Debug, Clone, Copy, PartialEq, Eq, Structural)]
pub enum ObjMaterialError {
    /// The mesh names no material.
    NoMaterial,
    /// The mesh names a material the file does not hold.
    MaterialNotFound,
}

/// The material an OBJ mesh uses, by its position among the file's
/// `material_count` materials.
pub fn obj_material(material_id: Option<usize>, material_count: usize) -> (r: Result<usize, ObjMaterialError>)
    ensures
        material_id is None ==> r == Err::<usize, ObjMaterialError>(ObjMaterialError::NoMaterial),
        (material_id matches Some(i) ==> if i < material_count {
            r == Ok::<usize, ObjMaterialError>(i)
        } else {
            r == Err::<usize, ObjMaterialError>(ObjMaterialError::MaterialNotFound)
        }),
{
    match material_id {
        None => Err(ObjMaterialError::NoMaterial),
        Some(i) => {
            if i < material_count {
                Ok(i)
            } else {
                Err(ObjMaterialError::MaterialNotFound)
            }
        },
    }
}

} // verus!

//! Which loader a model file goes to, by its name: the part after the first
//! `.` picks the format and the part before it is the name the loader reads.
use vstd::prelude::*;

verus! {

/// The format of a model file, with the name its loader is given.
#[derive(Debug, PartialEq, Eq)]
pub enum ModelFormat {
    /// A Wavefront `.obj` file.
    Obj(String),
    /// A glTF `.gltf` file.
    Gltf(String),
    /// A name with an extension no loader reads.
    Unsupported,
    /// A name without a `.`.
    Invalid,
}

/// `i` is the position of the first `.` of `s`.
pub open spec fn is_first_dot(s: Seq<char>, i: int) -> bool {
    &&& 0 <= i < s.len()
    &&& s[i] == '.'
    &&& forall|j: int| 0 <= j < i ==> #[trigger] s[j] != '.'
}

/// The position of the first `.` of `s`, if any.
pub open spec fn first_dot(s: Seq<char>) -> Option<int> {
    if exists|i: int| is_first_dot(s, i) {
        Some(choose|i: int| is_first_dot(s, i))
    } else {
        None
    }
}

/// The format of the model file named `name`, split at its first `.`.
pub fn model_format(name: &str) -> (r: ModelFormat)
    ensures
        (match first_dot(name@) {
            None => r == ModelFormat::Invalid,
            Some(i) => {
                let stem = name@.subrange(0, i);
                let extension = name@.subrange(i + 1, name@.len() as int);
                if extension == "obj"@ {
                    r matches ModelFormat::Obj(s) && s@ == stem
                } else if extension == "gltf"@ {
                    r matches ModelFormat::Gltf(s) && s@ == stem
                } else {
                    r == ModelFormat::Unsupported
                }
            },
        }),
{
    let len = name.unicode_len();
    let mut i: usize = 0;
    while i < len
        invariant
            len == name@.len(),
            i <= len,
            forall|j: int| 0 <= j < i ==> #[trigger] name@[j] != '.',
        decreases len - i,
    {
        if name.get_char(i) == '.' {
            proof {
                assert(is_first_dot(name@, i as int));
                let c = choose|k: int| is_first_dot(name@, k);
                if c < i {
                    assert(name@[c] != '.');
                } else if (i as int) < c {
                    assert(name@[i as int] != '.');
                }
                assert(first_dot(name@) == Some(i as int));
            }
            let stem = name.substring_char(0, i).to_string();
            let extension = name.substring_char(i + 1, len).to_string();
            let obj = "obj".to_string();
            let gltf = "gltf".to_string();
            if extension == obj {
                return ModelFormat::Obj(stem);
            } else if extension == gltf {
                return ModelFormat::Gltf(stem);
            } else {
                return ModelFormat::Unsupported;
            }
        }
        i = i + 1;
    }
    assert(!exists|k: int| is_first_dot(name@, k)) by {
        if exists|k: int| is_first_dot(name@, k) {
            let k = choose|k: int| is_first_dot(name@, k);
            assert(name@[k] != '.');
        }
    }
    ModelFormat::Invalid
}

} // verus!

//! Names and identifiers of loaded assets, and resolving the names that
//! asset descriptions use to refer to each other.
use vstd::prelude::*;

verus! {

/// An asset known by a unique identifier and by its name.
pub struct NamedId {
    pub id: u128,
    pub name: String,
}

/// A texture slot of a material, as a description names it.
#[derive(Debug)]
pub enum AttachmentDescription {
    Texture(String),
    DefaultTexture,
}

/// A texture slot of a material, resolved to a texture.
#[derive(Debug, Clone, Copy, PartialEq, Eq, Structural)]
pub enum Attachment {
    DefaultTexture,
    Texture(u128),
}

/// A name a description refers to that no loaded asset carries.
#[derive(Debug)]
pub enum ResolveError {
    VertexShaderNotFound(String),
    FragmentShaderNotFound(String),
    TextureNotFound(String),
}

/// Calls `uuid::Uuid::new_v4`, taken as a `u128`. The identifier is random:
/// nothing is stated of it.
#[verifier::external_body]
fn new_asset_id() -> u128 {
    uuid::Uuid::new_v4().as_u128()
}

/// `i` is the position of the first entry named `name`.
pub open spec fn is_first_named(entries: Seq<NamedId>, name: Seq<char>, i: int) -> bool {
    &&& 0 <= i < entries.len()
    &&& entries[i].name@ == name
    &&& forall|j: int| 0 <= j < i ==> #[trigger] entries[j].name@ != name
}

/// The identifier of the first entry named `name`, if any.
pub open spec fn id_of(entries: Seq<NamedId>, name: Seq<char>) -> Option<u128> {
    if exists|i: int| is_first_named(entries, name, i) {
        Some(entries[choose|i: int| is_first_named(entries, name, i)].id)
    } else {
        None
    }
}

proof fn lemma_first_named_unique(entries: Seq<NamedId>, name: Seq<char>, i: int, j: int)
    requires
        is_first_named(entries, name, i),
        is_first_named(entries, name, j),
    ensures
        i == j,
{
    if i < j {
        assert(entries[i].name@ != name);
    } else if j < i {
        assert(entries[j].name@ != name);
    }
}

/// The identifier of the first entry named `name`.
pub fn find_id(entries: &Vec<NamedId>, name: &str) -> (r: Option<u128>)
    ensures
        r == id_of(entries@, name@),
{
    let target = name.to_string();
    let mut i: usize = 0;
    while i < entries.len()
        invariant
            i <= entries@.len(),
            target@ == name@,
            forall|j: int| 0 <= j < i ==> #[trigger] entries@[j].name@ != name@,
        decreases entries@.len() - i,
    {
        if entries[i].name == target {
            proof {
                assert(is_first_named(entries@, name@, i as int));
                let c = choose|k: int| is_first_named(entries@, name@, k);
                lemma_first_named_unique(entries@, name@, i as int, c);
            }
            return Some(entries[i].id);
        }
        i = i + 1;
    }
    assert(!exists|k: int| is_first_named(entries@, name@, k)) by {
        if exists|k: int| is_first_named(entries@, name@, k) {
            let k = choose|k: int| is_first_named(entries@, name@, k);
            assert(entries@[k].name@ != name@);
        }
    }
    None
}

/// Gives each name a fresh random identifier, keeping the names and their order.
pub fn name_assets(names: &Vec<String>) -> (r: Vec<NamedId>)
    ensures
        r@.len() == names@.len(),
        forall|i: int| 0 <= i < names@.len() ==> #[trigger] r@[i].name@ == names@[i]@,
{
    let mut r: Vec<NamedId> = Vec::new();
    let mut i: usize = 0;
    while i < names.len()
        invariant
            i <= names@.len(),
            r@.len() == i,
            forall|j: int| 0 <= j < i ==> #[trigger] r@[j].name@ == names@[j]@,
        decreases names@.len() - i,
    {
        r.push(NamedId { id: new_asset_id(), name: names[i].clone() });
        i = i + 1;
    }
    r
}

/// The resolved form of `d`, given the textures by name.
pub open spec fn resolved_attachment(textures: Seq<NamedId>, d: AttachmentDescription) -> Option<Attachment> {
    match d {
        AttachmentDescription::DefaultTexture => Some(Attachment::DefaultTexture),
        AttachmentDescription::Texture(name) => match id_of(textures, name@) {
            Some(id) => Some(Attachment::Texture(id)),
            None => None,
        },
    }
}

/// The texture names among `ds` that no texture carries.
pub open spec fn all_attachments_resolve(textures: Seq<NamedId>, ds: Seq<AttachmentDescription>) -> bool {
    forall|k: int| 0 <= k < ds.len() ==> #[trigger] resolved_attachment(textures, ds[k]) is Some
}

/// A material's shaders and texture slots, resolved by name.
pub struct ResolvedMaterial {
    pub vertex_shader: u128,
    pub fragment_shader: u128,
    pub attachments: Vec<Attachment>,
}

/// Resolves the names a material description uses: its vertex and fragment
/// shaders among `shaders` and the textures of its slots among `textures`,
/// each to the first asset of that name. The first name that does not
/// resolve, in that order, is the error.
pub fn resolve_material(
    shaders: &Vec<NamedId>,
    textures: &Vec<NamedId>,
    vertex: &str,
    fragment: &str,
    attachments: &Vec<AttachmentDescription>,
) -> (r: Result<ResolvedMaterial, ResolveError>)
    ensures
        id_of(shaders@, vertex@) is None ==> (r matches Err(ResolveError::VertexShaderNotFound(n)) && n@ == vertex@),
        id_of(shaders@, vertex@) is Some && id_of(shaders@, fragment@) is None ==> (r matches Err(
            ResolveError::FragmentShaderNotFound(n),
        ) && n@ == fragment@),
        id_of(shaders@, vertex@) is Some && id_of(shaders@, fragment@) is Some ==> {
            &&& !all_attachments_resolve(textures@, attachments@) ==> (r matches Err(ResolveError::TextureNotFound(n))
                && exists|k: int|
                0 <= k < attachments@.len() && #[trigger] attachments@[k] == AttachmentDescription::Texture(n)
                    && resolved_attachment(textures@, attachments@[k]) is None && forall|j: int|
                    0 <= j < k ==> #[trigger] resolved_attachment(textures@, attachments@[j]) is Some)
            &&& all_attachments_resolve(textures@, attachments@) ==> (r matches Ok(m) && {
                &&& Some(m.vertex_shader) == id_of(shaders@, vertex@)
                &&& Some(m.fragment_shader) == id_of(shaders@, fragment@)
                &&& m.attachments@.len() == attachments@.len()
                &&& forall|k: int| 0 <= k < attachments@.len() ==> Some(#[trigger] m.attachments@[k]) == resolved_attachment(textures@, attachments@[k])
            })
        },
{
    let vertex_shader = match find_id(shaders, vertex) {
        Some(id) => id,
        None => {
            return Err(ResolveError::VertexShaderNotFound(vertex.to_string()));
        },
    };
    let fragment_shader = match find_id(shaders, fragment) {
        Some(id) => id,
        None => {
            return Err(ResolveError::FragmentShaderNotFound(fragment.to_string()));
        },
    };
    let mut resolved: Vec<Attachment> = Vec::new();
    let mut k: usize = 0;
    while k < attachments.len()
        invariant
            k <= attachments@.len(),
            Some(vertex_shader) == id_of(shaders@, vertex@),
            Some(fragment_shader) == id_of(shaders@, fragment@),
            resolved@.len() == k,
            forall|j: int| 0 <= j < k ==> Some(#[trigger] resolved@[j]) == resolved_attachment(textures@, attachments@[j]),
        decreases attachments@.len() - k,
    {
        match &attachments[k] {
            AttachmentDescription::DefaultTexture => {
                resolved.push(Attachment::DefaultTexture);
            },
            AttachmentDescription::Texture(name) => {
                match find_id(textures, name.as_str()) {
                    Some(id) => {
                        resolved.push(Attachment::Texture(id));
                    },
                    None => {
                        let missing = name.clone();
                        assert(attachments@[k as int] == AttachmentDescription::Texture(missing));
                        assert(resolved_attachment(textures@, attachments@[k as int]) is None);
                        assert(forall|j: int| 0 <= j < k ==> #[trigger] resolved_attachment(textures@, attachments@[j]) is Some) by {
                            assert forall|j: int| 0 <= j < k implies #[trigger] resolved_attachment(textures@, attachments@[j]) is Some by {
                                assert(Some(resolved@[j]) == resolved_attachment(textures@, attachments@[j]));
                            }
                        }
                        return Err(ResolveError::TextureNotFound(missing));
                    },
                }
            },
        }
        k = k + 1;
    }
    assert forall|j: int| 0 <= j < attachments@.len() implies #[trigger] resolved_attachment(textures@, attachments@[j]) is Some by {
        assert(Some(resolved@[j]) == resolved_attachment(textures@, attachments@[j]));
    }
    Ok(ResolvedMaterial { vertex_shader, fragment_shader, attachments: resolved })
}

} // verus!

//! What the descriptor sets of a draw hold, set by set, and which loaded
//! texture each texture slot of a material binds.
use vstd::prelude::*;

use crate::asset_index::{Attachment, NamedId};

verus! {

/// What one descriptor set of a draw holds.
#[derive(Debug, Clone, Copy, PartialEq, Eq, Structural)]
pub enum DescriptorSet {
    /// The camera's view and projection of the frame's image.
    ViewProjection,
    /// The model transform of the drawn object.
    Model,
    /// The material's textures, one binding per slot.
    Attachments,
    /// The material's parameter buffer.
    Parameters,
}

/// The sets of a mesh draw, by set number: view and projection, model, then
/// the textures if the material has any, then the parameters if it has them.
pub open spec fn mesh_sets(attachment_count: nat, has_parameters: bool) -> Seq<DescriptorSet> {
    seq![DescriptorSet::ViewProjection, DescriptorSet::Model] + (if attachment_count > 0 {
        seq![DescriptorSet::Attachments]
    } else {
        Seq::empty()
    }) + (if has_parameters {
        seq![DescriptorSet::Parameters]
    } else {
        Seq::empty()
    })
}

/// The sets of a user interface draw, by set number: the parameters, then
/// the textures if the material has any.
pub open spec fn ui_sets(attachment_count: nat) -> Seq<DescriptorSet> {
    seq![DescriptorSet::Parameters] + (if attachment_count > 0 {
        seq![DescriptorSet::Attachments]
    } else {
        Seq::empty()
    })
}

/// The descriptor sets of a mesh draw whose material has `attachment_count`
/// texture slots and, if `has_parameters`, a parameter buffer. A set's
/// position is its set number in the pipeline layout.
pub fn mesh_descriptor_sets(attachment_count: usize, has_parameters: bool) -> (r: Vec<DescriptorSet>)
    ensures
        r@ == mesh_sets(attachment_count as nat, has_parameters),
{
    let mut sets = vec![DescriptorSet::ViewProjection, DescriptorSet::Model];
    if attachment_count > 0 {
        sets.push(DescriptorSet::Attachments);
    }
    if has_parameters {
        sets.push(DescriptorSet::Parameters);
    }
    sets
}

/// The descriptor sets of a user interface draw whose material has
/// `attachment_count` texture slots. A set's position is its set number.
pub fn ui_descriptor_sets(attachment_count: usize) -> (r: Vec<DescriptorSet>)
    ensures
        r@ == ui_sets(attachment_count as nat),
{
    let mut sets = vec![DescriptorSet::Parameters];
    if attachment_count > 0 {
        sets.push(DescriptorSet::Attachments);
    }
    sets
}

/// The sets of a draw keep fixed numbers: view and projection at 0 and the
/// model at 1 for meshes, the parameters at 0 for the interface; a mesh's
/// textures at 2, and its parameters at 3 after textures or at 2 without.
pub proof fn law_set_numbers(attachment_count: nat, has_parameters: bool)
    ensures
        mesh_sets(attachment_count, has_parameters)[0] == DescriptorSet::ViewProjection,
        mesh_sets(attachment_count, has_parameters)[1] == DescriptorSet::Model,
        attachment_count > 0 ==> mesh_sets(attachment_count, has_parameters)[2] == DescriptorSet::Attachments,
        has_parameters ==> mesh_sets(attachment_count, has_parameters)[if attachment_count > 0 {
            3int
        } else {
            2int
        }] == DescriptorSet::Parameters,
        mesh_sets(attachment_count, has_parameters).len() == 2 + (if attachment_count > 0 {
            1int
        } else {
            0int
        }) + (if has_parameters {
            1int
        } else {
            0int
        }),
        ui_sets(attachment_count)[0] == DescriptorSet::Parameters,
        attachment_count > 0 ==> ui_sets(attachment_count)[1] == DescriptorSet::Attachments,
        ui_sets(attachment_count).len() == 1 + (if attachment_count > 0 {
            1int
        } else {
            0int
        }),
{
}

/// The name of the texture that default texture slots bind.
pub open spec fn default_texture_name() -> Seq<char> {
    "default"@
}

/// `i` is the first texture with identifier `id`.
pub open spec fn is_first_with_id(textures: Seq<NamedId>, id: u128, i: int) -> bool {
    &&& 0 <= i < textures.len()
    &&& textures[i].id == id
    &&& forall|j: int| 0 <= j < i ==> #[trigger] textures[j].id != id
}

/// `i` is the first texture named `name`.
pub open spec fn is_first_with_name(textures: Seq<NamedId>, name: Seq<char>, i: int) -> bool {
    &&& 0 <= i < textures.len()
    &&& textures[i].name@ == name
    &&& forall|j: int| 0 <= j < i ==> #[trigger] textures[j].name@ != name
}

/// The texture a slot binds, by its position among `textures`: the first
/// with the slot's identifier, or for a default slot the first named
/// `default`.
pub open spec fn texture_for(textures: Seq<NamedId>, a: Attachment) -> Option<int> {
    match a {
        Attachment::Texture(id) => if exists|i: int| is_first_with_id(textures, id, i) {
            Some(choose|i: int| is_first_with_id(textures, id, i))
        } else {
            None
        },
        Attachment::DefaultTexture => if exists|i: int| is_first_with_name(textures, default_texture_name(), i) {
            Some(choose|i: int| is_first_with_name(textures, default_texture_name(), i))
        } else {
            None
        },
    }
}

/// The position of the first texture with identifier `id`.
fn position_of_id(textures: &Vec<NamedId>, id: u128) -> (r: Option<usize>)
    ensures
        (match r {
            Some(i) => texture_for(textures@, Attachment::Texture(id)) == Some(i as int),
            None => texture_for(textures@, Attachment::Texture(id)) is None,
        }),
        (r matches Some(i) ==> is_first_with_id(textures@, id, i as int)),
{
    let mut i: usize = 0;
    while i < textures.len()
        invariant
            i <= textures@.len(),
            forall|j: int| 0 <= j < i ==> #[trigger] textures@[j].id != id,
        decreases textures@.len() - i,
    {
        if textures[i].id == id {
            proof {
                assert(is_first_with_id(textures@, id, i as int));
                let c = choose|k: int| is_first_with_id(textures@, id, k);
                if c < i {
                    assert(textures@[c].id != id);
                } else if (i as int) < c {
                    assert(textures@[i as int].id != id);
                }
                assert(exists|k: int| is_first_with_id(textures@, id, k));
                let a = Attachment::Texture(id);
                assert(a->0 == id);
                assert(texture_for(textures@, a) is Some);
                assert(texture_for(textures@, Attachment::Texture(id)) == Some(i as int));
            }
            return Some(i);
        }
        i = i + 1;
    }
    assert(!exists|k: int| is_first_with_id(textures@, id, k)) by {
        if exists|k: int| is_first_with_id(textures@, id, k) {
            let k = choose|k: int| is_first_with_id(textures@, id, k);
            assert(textures@[k].id != id);
        }
    }
    None
}

/// The position of the first texture named `default`.
fn position_of_default(textures: &Vec<NamedId>) -> (r: Option<usize>)
    ensures
        (match r {
            Some(i) => texture_for(textures@, Attachment::DefaultTexture) == Some(i as int),
            None => texture_for(textures@, Attachment::DefaultTexture) is None,
        }),
        (r matches Some(i) ==> is_first_with_name(textures@, default_texture_name(), i as int)),
{
    let target = "default".to_string();
    let mut i: usize = 0;
    while i < textures.len()
        invariant
            i <= textures@.len(),
            target@ == default_texture_name(),
            forall|j: int| 0 <= j < i ==> #[trigger] textures@[j].name@ != default_texture_name(),
        decreases textures@.len() - i,
    {
        if textures[i].name == target {
            proof {
                let name = default_texture_name();
                assert(is_first_with_name(textures@, name, i as int));
                let c = choose|k: int| is_first_with_name(textures@, name, k);
                if c < i {
                    assert(textures@[c].name@ != name);
                } else if (i as int) < c {
                    assert(textures@[i as int].name@ != name);
                }
            }
            return Some(i);
        }
        i = i + 1;
    }
    assert(!exists|k: int| is_first_with_name(textures@, default_texture_name(), k)) by {
        if exists|k: int| is_first_with_name(textures@, default_texture_name(), k) {
            let k = choose|k: int| is_first_with_name(textures@, default_texture_name(), k);
            assert(textures@[k].name@ != default_texture_name());
        }
    }
    None
}

/// The texture each slot of a material binds, by position among the loaded
/// `textures`; the slot at position `k` is binding `k` of the texture set.
/// `None` if some slot's texture is not loaded.
pub fn attachment_textures(attachments: &Vec<Attachment>, textures: &Vec<NamedId>) -> (r: Option<Vec<usize>>)
    ensures
        (r is Some) <==> (forall|k: int| 0 <= k < attachments@.len() ==> #[trigger] texture_for(textures@, attachments@[k]) is Some),
        (r matches Some(v) ==> {
            &&& v@.len() == attachments@.len()
            &&& forall|k: int|
                0 <= k < attachments@.len() ==> texture_for(textures@, attachments@[k]) == Some(#[trigger] v@[k] as int)
        }),
{
    let mut bound: Vec<usize> = Vec::new();
    let mut k: usize = 0;
    while k < attachments.len()
        invariant
            k <= attachments@.len(),
            bound@.len() == k,
            forall|j: int| 0 <= j < k ==> texture_for(textures@, attachments@[j]) == Some(#[trigger] bound@[j] as int),
        decreases attachments@.len() - k,
    {
        let found = match attachments[k] {
            Attachment::Texture(id) => position_of_id(textures, id),
            Attachment::DefaultTexture => position_of_default(textures),
        };
        match found {
            Some(i) => {
                bound.push(i);
            },
            None => {
                assert(texture_for(textures@, attachments@[k as int]) is None);
                return None;
            },
        }
        k = k + 1;
    }
    assert forall|j: int| 0 <= j < attachments@.len() implies #[trigger] texture_for(textures@, attachments@[j]) is Some by {
        assert(texture_for(textures@, attachments@[j]) == Some(bound@[j] as int));
    }
    Some(bound)
}

} // verus!

//! Equipment: the stored record, the form in which it is shown, and an
//! equipment hire.

use vstd::prelude::*;
use vstd::string::*;
use crate::ids::{new_public_id, UUID_KIND_MASK, UUID_RANDOM_KIND};

verus! {

/// Equipment as the database keeps it.
#[derive(Debug, Clone, PartialEq, Eq)]
pub struct EquipmentModel {
    pub id: i32,
    pub publicid: u128,
    pub name: String,
}

/// Equipment as requests and responses show it.
#[derive(Debug, Clone, PartialEq, Eq)]
pub struct EquipmentDto {
    pub id: i32,
    pub publicid: u128,
    pub name: String,
}

/// Equipment as a hire names it.
#[derive(Debug, Clone, PartialEq, Eq)]
pub struct Equipment {
    pub id: u32,
    pub public_id: u128,
    pub name: String,
}

/// Equipment that is hired out.
#[derive(Debug, Clone, PartialEq, Eq)]
pub struct HireEquipment {
    pub id: u32,
    pub public_id: u128,
    pub equipment: Equipment,
}

impl EquipmentDto {
    /// The equipment as it is shown.
    pub fn from_model(model: &EquipmentModel) -> (r: Self)
        ensures
            r.id == model.id,
            r.publicid == model.publicid,
            r.name@ == model.name@,
    {
        EquipmentDto { id: model.id, publicid: model.publicid, name: model.name.clone() }
    }
}

impl EquipmentModel {
    /// The equipment as it is stored.
    pub fn from_dto(dto: &EquipmentDto) -> (r: Self)
        ensures
            r.id == dto.id,
            r.publicid == dto.publicid,
            r.name@ == dto.name@,
    {
        EquipmentModel { id: dto.id, publicid: dto.publicid, name: dto.name.clone() }
    }
}

/// The equipment as it is stored.
pub fn dto_to_model(dto: &EquipmentDto) -> (r: EquipmentModel)
    ensures
        r.id == dto.id,
        r.publicid == dto.publicid,
        r.name@ == dto.name@,
{
    EquipmentModel::from_dto(dto)
}

/// The equipment as it is shown.
pub fn model_to_dto(model: &EquipmentModel) -> (r: EquipmentDto)
    ensures
        r.id == model.id,
        r.publicid == model.publicid,
        r.name@ == model.name@,
{
    EquipmentDto::from_model(model)
}

/// Every stored equipment as it is shown, in the order of the store.
pub fn models_to_dtos(models: &Vec<EquipmentModel>) -> (r: Vec<EquipmentDto>)
    ensures
        r@.len() == models@.len(),
        forall|i: int|
            0 <= i < r@.len() ==> (#[trigger] r@[i]).id == models@[i].id && r@[i].publicid
                == models@[i].publicid && r@[i].name@ == models@[i].name@,
{
    let mut dtos: Vec<EquipmentDto> = Vec::new();
    let mut i: usize = 0;
    while i < models.len()
        invariant
            i <= models.len(),
            dtos@.len() == i,
            forall|j: int|
                0 <= j < i ==> (#[trigger] dtos@[j]).id == models@[j].id && dtos@[j].publicid
                    == models@[j].publicid && dtos@[j].name@ == models@[j].name@,
        decreases models.len() - i,
    {
        dtos.push(EquipmentDto::from_model(&models[i]));
        i = i + 1;
    }
    dtos
}

/// The hire of the equipment with a given id: hire number one, of the big
/// wire, both under fresh public identifiers.
pub fn hire(id: u32) -> (r: HireEquipment)
    ensures
        r.id == 1,
        r.public_id & UUID_KIND_MASK == UUID_RANDOM_KIND,
        r.equipment.id == id,
        r.equipment.public_id & UUID_KIND_MASK == UUID_RANDOM_KIND,
        r.equipment.name@ == "Big wire"@,
{
    HireEquipment {
        id: 1,
        public_id: new_public_id(),
        equipment: Equipment { id, public_id: new_public_id(), name: String::from_str("Big wire") },
    }
}

/// The hire of the equipment with a given name: hire number two, of
/// equipment number three, both under fresh public identifiers.
pub fn hire_by_name(equipment_name: String) -> (r: HireEquipment)
    ensures
        r.id == 2,
        r.public_id & UUID_KIND_MASK == UUID_RANDOM_KIND,
        r.equipment.id == 3,
        r.equipment.public_id & UUID_KIND_MASK == UUID_RANDOM_KIND,
        r.equipment.name@ == equipment_name@,
{
    HireEquipment {
        id: 2,
        public_id: new_public_id(),
        equipment: Equipment { id: 3, public_id: new_public_id(), name: equipment_name },
    }
}

} // verus!

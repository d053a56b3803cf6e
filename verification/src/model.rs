//! The console models a boot ROM can belong to.

use vstd::prelude::*;

verus! {

/// A console model.
#[derive(Clone, Copy, Debug, PartialEq, Eq, Structural)]
pub enum Model {
    Dmg0,
    Dmg,
    Mgb,
    Sgb,
    Sgb2,
}

/// The boot-ROM file name conventionally used for each model.
pub open spec fn spec_bootrom_name(m: Model) -> Seq<char> {
    match m {
        Model::Dmg0 => "dmg0_rom.bin"@,
        Model::Dmg => "dmg_boot.bin"@,
        Model::Mgb => "mgb_boot.bin"@,
        Model::Sgb => "sgb_boot.bin"@,
        Model::Sgb2 => "sgb2_boot.bin"@,
    }
}

impl Model {
    /// The boot-ROM file name for this model.
    pub fn bootrom_name(&self) -> (r: &'static str)
        ensures
            r@ == spec_bootrom_name(*self),
    {
        match *self {
            Model::Dmg0 => "dmg0_rom.bin",
            Model::Dmg => "dmg_boot.bin",
            Model::Mgb => "mgb_boot.bin",
            Model::Sgb => "sgb_boot.bin",
            Model::Sgb2 => "sgb2_boot.bin",
        }
    }
}

/// The order in which models are tried when looking a boot ROM up.
pub fn default_model_priority() -> (r: Vec<Model>)
    ensures
        r@ =~= seq![Model::Dmg, Model::Dmg0, Model::Mgb, Model::Sgb2, Model::Sgb],
{
    let mut v: Vec<Model> = Vec::new();
    v.push(Model::Dmg);
    v.push(Model::Dmg0);
    v.push(Model::Mgb);
    v.push(Model::Sgb2);
    v.push(Model::Sgb);
    v
}

} // verus!

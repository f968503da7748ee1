//! The Game Boy models that the emulator knows.
use vstd::prelude::*;

verus! {

/// A Game Boy model; each has a boot ROM of its own.
#[derive(Clone, Copy, Debug, PartialEq, Eq, Structural)]
pub enum Model {
    Dmg0,
    Dmg,
    Mgb,
    Sgb,
    Sgb2,
}

/// The models to try, most wanted first, when the user names none.
pub open spec fn spec_default_model_priority() -> Seq<Model> {
    seq![Model::Dmg, Model::Mgb, Model::Sgb2, Model::Sgb, Model::Dmg0]
}

/// The models to try, most wanted first, when the user names none.
pub fn default_model_priority() -> (r: Vec<Model>)
    ensures
        r@ == spec_default_model_priority(),
{
    let r = vec![Model::Dmg, Model::Mgb, Model::Sgb2, Model::Sgb, Model::Dmg0];
    assert(r@ =~= spec_default_model_priority());
    r
}

/// The models whose boot ROMs are looked for: those asked for, or the
/// default ones when none is.
pub fn candidate_models(models: &[Model]) -> (r: Vec<Model>)
    ensures
        r@ == if models@.len() == 0 {
            spec_default_model_priority()
        } else {
            models@
        },
{
    if models.len() == 0 {
        default_model_priority()
    } else {
        let mut r: Vec<Model> = Vec::new();
        let mut i: usize = 0;
        while i < models.len()
            invariant
                i <= models@.len(),
                r@ == models@.subrange(0, i as int),
            decreases models@.len() - i,
        {
            r.push(models[i]);
            i += 1;
            assert(r@ =~= models@.subrange(0, i as int));
        }
        assert(r@ =~= models@);
        r
    }
}

impl Model {
    /// The file name under which the model's boot ROM is kept.
    pub fn bootrom_file_name(&self) -> (r: &'static str)
        ensures
            r@ == match *self {
                Model::Dmg0 => "dmg0_boot.bin"@,
                Model::Dmg => "dmg_boot.bin"@,
                Model::Mgb => "mgb_boot.bin"@,
                Model::Sgb => "sgb_boot.bin"@,
                Model::Sgb2 => "sgb2_boot.bin"@,
            },
    {
        match *self {
            Model::Dmg0 => "dmg0_boot.bin",
            Model::Dmg => "dmg_boot.bin",
            Model::Mgb => "mgb_boot.bin",
            Model::Sgb => "sgb_boot.bin",
            Model::Sgb2 => "sgb2_boot.bin",
        }
    }

    /// The model's name as shown to the user.
    pub fn display_name(&self) -> (r: &'static str)
        ensures
            r@ == match *self {
                Model::Dmg0 => "DMG (Game Boy), early version"@,
                Model::Dmg => "DMG (Game Boy)"@,
                Model::Mgb => "MGB (Game Boy Pocket)"@,
                Model::Sgb => "SGB (Super Game Boy)"@,
                Model::Sgb2 => "SGB2 (Super Game Boy 2)"@,
            },
    {
        match *self {
            Model::Dmg0 => "DMG (Game Boy), early version",
            Model::Dmg => "DMG (Game Boy)",
            Model::Mgb => "MGB (Game Boy Pocket)",
            Model::Sgb => "SGB (Super Game Boy)",
            Model::Sgb2 => "SGB2 (Super Game Boy 2)",
        }
    }
}

} // verus!

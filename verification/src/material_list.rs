//! A material list as exported by Litematica.
use vstd::prelude::*;

use crate::material_list::material::{Material, MaterialModel};

pub mod material;

verus! {

/// A named list of materials, with the multiplier it was exported with.
#[allow(non_snake_case)]
#[derive(Debug)]
pub struct MaterialList {
    pub Name: String,
    pub Multiplier: i32,
    pub Materials: Vec<Material>,
}

impl View for MaterialList {
    type V = MaterialListModel;

    open spec fn view(&self) -> MaterialListModel {
        MaterialListModel {
            name: self.Name@,
            multiplier: self.Multiplier as int,
            materials: self.Materials.deep_view(),
        }
    }
}

impl DeepView for MaterialList {
    type V = MaterialListModel;

    open spec fn deep_view(&self) -> MaterialListModel {
        self@
    }
}

/// Mathematical model of a [`MaterialList`].
#[verifier::ext_equal]
pub struct MaterialListModel {
    pub name: Seq<char>,
    pub multiplier: int,
    pub materials: Seq<MaterialModel>,
}

impl Clone for MaterialList {
    fn clone(&self) -> (r: Self)
        ensures
            r@ == self@,
    {
        let mut materials: Vec<Material> = Vec::new();
        let n = self.Materials.len();
        for i in 0..n
            invariant
                n == self.Materials@.len(),
                materials@.len() == i,
                forall|j: int| 0 <= j < i ==> (#[trigger] materials@[j])@ == self.Materials@[j]@,
        {
            materials.push(self.Materials[i].clone());
        }
        let r = MaterialList {
            Name: self.Name.clone(),
            Multiplier: self.Multiplier,
            Materials: materials,
        };
        assert(r@.materials =~= self@.materials);
        r
    }
}

} // verus!

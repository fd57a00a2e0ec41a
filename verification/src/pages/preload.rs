//! The start page: the saved lists that can be loaded again.
use vstd::prelude::*;

use crate::application::{SaveData, SaveDataModel};
use crate::widgets::ListPreview;

verus! {

/// The saved lists offered on the start page, if there are any.
#[derive(Debug)]
pub struct PreloadData {
    pub list_previews: Option<Vec<ListPreview>>,
}

impl View for PreloadData {
    type V = Option<Seq<SaveDataModel>>;

    open spec fn view(&self) -> Option<Seq<SaveDataModel>> {
        match self.list_previews {
            Some(v) => Some(v.deep_view()),
            None => None,
        }
    }
}

impl Default for PreloadData {
    fn default() -> (r: PreloadData)
        ensures
            r@ is None,
    {
        PreloadData { list_previews: None }
    }
}

impl PreloadData {
    /// One preview for each saved list, in order; none when no list was
    /// found.
    pub fn new(lists: Option<Vec<SaveData>>) -> (r: PreloadData)
        ensures
            r@ == (match lists {
                Some(l) => Some(l.deep_view()),
                None => None,
            }),
    {
        match lists {
            None => PreloadData { list_previews: None },
            Some(l) => {
                let mut previews: Vec<ListPreview> = Vec::new();
                let n = l.len();
                for i in 0..n
                    invariant
                        n == l@.len(),
                        previews@.len() == i,
                        forall|j: int| 0 <= j < i ==> (#[trigger] previews@[j])@ == l@[j]@,
                {
                    previews.push(ListPreview::new(l[i].clone()));
                }
                assert(previews.deep_view() =~= l.deep_view());
                PreloadData { list_previews: Some(previews) }
            },
        }
    }
}

/// The saved lists that were read, or none when the folder held no list.
pub fn collect_lists(lists: Vec<SaveData>) -> (r: Option<Vec<SaveData>>)
    ensures
        lists@.len() == 0 ==> r is None,
        lists@.len() != 0 ==> (r matches Some(l) && l@ == lists@),
{
    if lists.len() == 0 {
        None
    } else {
        Some(lists)
    }
}

} // verus!

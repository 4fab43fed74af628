//! Choosing the queue families a logical device is created with.
use vstd::prelude::*;

verus! {

/// What a queue family of the physical device offers, as far as the choice
/// reads it.
#[derive(Clone, Copy, Debug, PartialEq, Eq, Structural)]
pub struct QueueFamilyInfo {
    pub id: u32,
    /// The family can run graphics work.
    pub graphics: bool,
    /// The family can present to the window's surface.
    pub present: bool,
}

/// The families chosen for graphics work and for presentation; they may be
/// the same family.
#[derive(Clone, Copy, Debug, PartialEq, Eq, Structural)]
pub struct QueueSelection {
    pub graphics: u32,
    pub present: u32,
}

/// Why no logical device can be set up on the physical device.
#[derive(Clone, Copy, Debug, PartialEq, Eq, Structural)]
pub enum DeviceError {
    NoGraphicsQueue,
    NoPresentQueue,
}

/// Family `i` is the first that can run graphics work.
pub open spec fn first_graphics(fams: Seq<QueueFamilyInfo>, i: int) -> bool {
    &&& 0 <= i < fams.len()
    &&& fams[i].graphics
    &&& forall|k: int| 0 <= k < i ==> !(#[trigger] fams[k]).graphics
}

/// Family `i` is the first that can present.
pub open spec fn first_present(fams: Seq<QueueFamilyInfo>, i: int) -> bool {
    &&& 0 <= i < fams.len()
    &&& fams[i].present
    &&& forall|k: int| 0 <= k < i ==> !(#[trigger] fams[k]).present
}

pub open spec fn has_graphics(fams: Seq<QueueFamilyInfo>) -> bool {
    exists|i: int| 0 <= i < fams.len() && (#[trigger] fams[i]).graphics
}

pub open spec fn has_present(fams: Seq<QueueFamilyInfo>) -> bool {
    exists|i: int| 0 <= i < fams.len() && (#[trigger] fams[i]).present
}

/// Chooses, in the device's order, the first family that runs graphics work
/// and the first that presents.
pub fn select_queue_families(families: &Vec<QueueFamilyInfo>) -> (r: Result<
    QueueSelection,
    DeviceError,
>)
    ensures
        !has_graphics(families@) ==> r == Err::<QueueSelection, DeviceError>(
            DeviceError::NoGraphicsQueue,
        ),
        has_graphics(families@) && !has_present(families@) ==> r == Err::<
            QueueSelection,
            DeviceError,
        >(DeviceError::NoPresentQueue),
        has_graphics(families@) && has_present(families@) ==> r is Ok,
        r matches Ok(sel) ==> exists|i: int, j: int|
            first_graphics(families@, i) && first_present(families@, j) && sel.graphics
                == families@[i].id && sel.present == families@[j].id,
{
    let mut graphical: Option<u32> = None;
    let mut present: Option<u32> = None;
    let ghost mut gi: int = 0;
    let ghost mut pi: int = 0;
    let mut i: usize = 0;
    while i < families.len()
        invariant
            i <= families@.len(),
            graphical is None ==> forall|k: int| 0 <= k < i ==> !(#[trigger] families@[k]).graphics,
            graphical matches Some(g) ==> first_graphics(families@, gi) && gi < i && g
                == families@[gi].id,
            present is None ==> forall|k: int| 0 <= k < i ==> !(#[trigger] families@[k]).present,
            present matches Some(p) ==> first_present(families@, pi) && pi < i && p
                == families@[pi].id,
        decreases families@.len() - i,
    {
        let family = families[i];
        if graphical.is_none() && family.graphics {
            graphical = Some(family.id);
            proof {
                gi = i as int;
            }
        }
        if present.is_none() && family.present {
            present = Some(family.id);
            proof {
                pi = i as int;
            }
        }
        i = i + 1;
    }
    match graphical {
        None => Err(DeviceError::NoGraphicsQueue),
        Some(g) => match present {
            None => Err(DeviceError::NoPresentQueue),
            Some(p) => {
                assert(first_graphics(families@, gi) && first_present(families@, pi));
                Ok(QueueSelection { graphics: g, present: p })
            },
        },
    }
}

/// The families to create one queue each in: the graphics family, then the
/// present family when it is another one. The present queue is the second
/// queue created, or the graphics queue when only one is.
pub fn queue_families_to_create(sel: QueueSelection) -> (r: Vec<u32>)
    ensures
        sel.graphics == sel.present ==> r@ == seq![sel.graphics],
        sel.graphics != sel.present ==> r@ == seq![sel.graphics, sel.present],
{
    let mut families: Vec<u32> = Vec::new();
    families.push(sel.graphics);
    if sel.present != sel.graphics {
        families.push(sel.present);
    }
    families
}

} // verus!

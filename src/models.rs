//! The recorder's bootstrap snapshot: its cameras and its own identity.
use vstd::prelude::*;

verus! {

pub struct Camera {
    pub id: String,
    pub name: String,
    pub mac: String,
    pub model: Option<String>,
    pub is_connected: bool,
}

pub struct Nvr {
    pub id: String,
    pub name: String,
    pub version: String,
    pub timezone: String,
}

/// Cameras in the order the recorder listed them; of two entries with one
/// id, the later one counts.
pub struct Bootstrap {
    pub cameras: Vec<Camera>,
    pub nvr: Nvr,
}

/// The name of the last camera with id `id`, if any.
pub open spec fn camera_name_spec(cameras: Seq<Camera>, id: Seq<char>) -> Option<Seq<char>>
    decreases cameras.len(),
{
    if cameras.len() == 0 {
        None
    } else if cameras.last().id@ == id {
        Some(cameras.last().name@)
    } else {
        camera_name_spec(cameras.drop_last(), id)
    }
}

impl Bootstrap {
    /// Looks up the name of the camera with id `camera_id`.
    pub fn camera_name(&self, camera_id: &String) -> (r: Option<String>)
        ensures
            match (r, camera_name_spec(self.cameras@, camera_id@)) {
                (Some(n), Some(m)) => n@ == m,
                (None, None) => true,
                _ => false,
            },
    {
        let mut i: usize = self.cameras.len();
        assert(self.cameras@.subrange(0, i as int) =~= self.cameras@);
        while i > 0
            invariant
                i <= self.cameras@.len(),
                camera_name_spec(self.cameras@, camera_id@) == camera_name_spec(
                    self.cameras@.subrange(0, i as int),
                    camera_id@,
                ),
            decreases i,
        {
            let ghost head = self.cameras@.subrange(0, i as int);
            if self.cameras[i - 1].id == *camera_id {
                return Some(self.cameras[i - 1].name.clone());
            }
            assert(head.drop_last() =~= self.cameras@.subrange(0, i - 1));
            i = i - 1;
        }
        None
    }
}

} // verus!

//! The bundled demonstration scene.

use vstd::prelude::*;

verus! {

/// The classic closed-box demonstration scene: five matte walls, one
/// rectangular area light in the ceiling, a glass sphere and two matte
/// boxes.  The value itself carries nothing; the scene's geometry is built
/// in floating point by the binary that renders it.
pub struct CornellBox {}

impl CornellBox {
    /// Names the demonstration scene.
    pub fn new() -> (demo: CornellBox)
        ensures
            demo == (CornellBox {  }),
    {
        CornellBox {  }
    }
}

} // verus!

use vstd::prelude::*;

verus! {

/// The application's workspace tabs, in the order the tab bar shows them.
#[derive(Clone, Copy, Debug, PartialEq, Eq, Structural, Hash)]
pub enum Tab {
    Alignment,
    Edit,
    Morph,
    Texture,
    Hair,
    Result,
}

/// Which of the two heads a pin, a camera or an edit belongs to.
#[derive(Clone, Copy, Debug, PartialEq, Eq, Structural, Hash)]
pub enum MeshSide {
    Scan,
    Template,
}

impl MeshSide {
    /// The side across from this one.
    pub open spec fn spec_other(self) -> MeshSide {
        match self {
            MeshSide::Scan => MeshSide::Template,
            MeshSide::Template => MeshSide::Scan,
        }
    }

    /// The side across from this one.
    pub fn other(self) -> (result: MeshSide)
        ensures
            result == self.spec_other(),
    {
        match self {
            MeshSide::Scan => MeshSide::Template,
            MeshSide::Template => MeshSide::Scan,
        }
    }
}

/// The two panes of a split model view.
#[derive(Clone, Copy, Debug, PartialEq, Eq, Structural, Hash)]
pub enum ViewPane {
    Primary,
    Split,
}

/// What a drag in the viewport does to the camera.
#[derive(Clone, Copy, Debug, PartialEq, Eq, Structural, Hash)]
pub enum ControlMode {
    Orbit,
    Trackball,
    VertexRotate,
}

/// Which head the alignment tab puts on its template side.
#[derive(Clone, Copy, Debug, PartialEq, Eq, Structural, Hash)]
pub enum EditSourceMode {
    ScanHead,
    CustomMorph,
    Template,
}

/// How the model surface is shaded.
#[derive(Clone, Copy, Debug, PartialEq, Eq, Structural, Hash)]
pub enum BaseViewMode {
    Solid,
    Texture,
}

/// How a draw call treats the depth buffer it finds.
#[derive(Clone, Copy, Debug, PartialEq, Eq, Structural, Hash)]
pub enum RenderDepthScope {
    /// Clear depth first, so nothing drawn earlier can hide this surface.
    ResetBeforeDraw,
    /// Test against what is already in the buffer.
    Shared,
}

/// How a mesh is drawn.
#[derive(Clone, Copy, Debug, PartialEq, Eq, Structural, Hash)]
pub enum RenderStyle {
    Solid,
    Wire,
    Xray,
}

/// The keyboard modifiers held during a frame.
#[derive(Clone, Copy, Debug, PartialEq, Eq, Structural, Hash)]
pub struct Modifiers {
    pub alt: bool,
    pub ctrl: bool,
    pub shift: bool,
    pub command: bool,
}

} // verus!

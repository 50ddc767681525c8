use vstd::prelude::*;

verus! {

/// The words the viewport shows, by the key the localised word lists use.
#[derive(Clone, Copy, Debug, PartialEq, Eq, Structural, Hash)]
pub enum TextKey {
    HelpPlace,
    ShortcutPlace,
    HelpMove,
    ShortcutMove,
    HelpDelete,
    ShortcutDelete,
    HelpXSymmetry,
    ShortcutXSymmetry,
    HelpOrbit,
    ShortcutOrbit,
    HelpTrackball,
    ShortcutTrackball,
    HelpLevelRoll,
    ShortcutLevelRoll,
    HelpPan,
    ShortcutPan,
    HelpZoom,
    ShortcutZoom,
    HelpDragZoom,
    ShortcutDragZoom,
    HelpFrameView,
    ShortcutFrameView,
    HelpSnapView,
    ShortcutSnapView,
    HelpStandardViews,
    ShortcutStandardViews,
    HelpCameraProjection,
    ShortcutCameraProjection,
    HelpLight,
    ShortcutLight,
    HelpUndo,
    ShortcutUndo,
    HelpRedo,
    ShortcutRedo,
    HelpSnapRotation,
    ShortcutSnapRotation,
    HelpHairSmooth,
    ShortcutHairSmooth,
    HelpHairPick,
    ShortcutHairPick,
    HelpBrushSize,
    ShortcutBrushSize,
    HelpBrushStrength,
    ShortcutBrushStrength,
    HairSegmentsShort,
    SculptGrab,
    ShortcutSculptGrab,
    SculptSmooth,
    ShortcutSculptSmooth,
    SculptPushPull,
    ShortcutSculptPushPull,
    SculptXSymmetry,
    HelpProjectionPaint,
    ShortcutProjectionPaint,
    HelpProjectionMove,
    ShortcutProjectionMove,
    HelpProjectionRotate,
    ShortcutProjectionRotate,
    HelpProjectionZoom,
    ShortcutProjectionZoom,
    HelpProjectionDone,
    ShortcutProjectionDone,
    HairToolPick,
    HairToolPickHint,
    HairToolVertex,
    HairToolVertexHint,
    HairToolPlant,
    HairToolPlantHint,
    HairToolGrow,
    HairToolGrowHint,
    HairToolCut,
    HairToolCutHint,
    HairToolErase,
    HairToolEraseHint,
    HairToolComb,
    HairToolCombHint,
    HairToolPinch,
    HairToolPinchHint,
    HairToolPuff,
    HairToolPuffHint,
    HairToolRigidity,
    HairToolRigidityHint,
    HairMirrorPart,
    ResetSculpt,
    ResetMorphs,
    ResetAllPins,
    ResetSourceRetouch,
    Skin,
    SculptTear,
    Eyelashes,
    SculptEyes,
    SculptLips,
    SculptTeethTongue,
    SculptInnerMouth,
    BackgroundRadial,
    BackgroundVertical,
    BackgroundFlat,
    ViewportLightingTooltip,
    ViewportBackgroundTooltip,
    ViewportWireframeTooltip,
    ViewportXrayTooltip,
    ViewportSkinTooltip,
    CameraSettings,
    Lighting,
    Background,
    WireframeSettings,
    XraySettings,
    SkinSettings,
    TextureNeedsImage,
    TexturePinPairPrompt,
    TextureToolNeedsPins,
    TooltipHide,
    TooltipShow,
    TooltipLock,
    TooltipUnlock,
    SoloViewHint,
    SoloViewRestoreHint,
    AlignmentPending,
    HairMirrorEdit,
    HairMirrorEditHint,
    HairAutoPart,
    HairAutoPartHint,
    HairPartTint,
    HairPartTintHint,
    HairShowPoints,
    HairShowPointsHint,
    HairViewportPhysics,
    HairViewportPhysicsHint,
    HairShowStreams,
    HairShowStreamsHint,
    HairHideStrands,
    HairHideStrandsHint,
    ReferenceImageLock,
    ReferenceImageUnlock,
}

/// The icons the viewport paints.
#[derive(Clone, Copy, Debug, PartialEq, Eq, Structural, Hash)]
pub enum Icon {
    Undo,
    Redo,
    Hammer,
    Broom,
    LightBulb,
    Picture,
    Wireframe,
    Xray,
    HeadTexture,
    Camera,
    CursorPick,
    HairVertex,
    HairPlant,
    HairLength,
    Scissors,
    Eraser,
    Comb,
    Pinch,
    HairPuff,
    HairRigidity,
    MirrorPart,
    EyeOpen,
    EyeClosed,
    Lock,
    SplitRows,
    SplitColumns,
    MirrorX,
    ConnectedTopology,
    VennThree,
    CrosshairBox,
    GlobeGravity,
    HairStream,
    FalloffSmooth,
    FalloffSmoother,
    FalloffSharp,
    FalloffLinear,
}

} // verus!

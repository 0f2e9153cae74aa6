//! Three arrows that show where the axes of the world are.

use vstd::prelude::*;
use crate::camera::Camera;
use crate::context::Recording;
use crate::context::RecordingView;
use crate::math::Transformation;
use crate::math::Vec4;
use crate::math::ONE;
use crate::math::ZERO;
use crate::mesh::Mesh;
use crate::mesh::MeshPrograms;
use crate::context::MeshShader;
use crate::states::RenderStates;
use crate::states::Viewport;

verus! {

/// Three arrows indicating the three main axes; the x-axis (red), the y-axis
/// (green) and the z-axis (blue). Used for easily debugging where objects
/// are placed in the 3D world.
#[derive(Debug, PartialEq, Eq)]
pub struct Axes {
    pub x: Mesh,
    pub y: Mesh,
    pub z: Mesh,
}

impl Axes {
    /// Opaque red.
    pub open spec fn red() -> Vec4 {
        Vec4 { x: ONE, y: ZERO, z: ZERO, w: ONE }
    }

    /// Opaque green.
    pub open spec fn green() -> Vec4 {
        Vec4 { x: ZERO, y: ONE, z: ZERO, w: ONE }
    }

    /// Opaque blue.
    pub open spec fn blue() -> Vec4 {
        Vec4 { x: ZERO, y: ZERO, z: ONE, w: ONE }
    }

    /// What rendering the axes issues: the arrow of the x-axis in red, then
    /// that of the y-axis in green, then that of the z-axis in blue, each
    /// with the shared program that shows a mesh in one colour and under
    /// the state of a draw that asks for nothing special. An arrow that
    /// fails stops the rendering.
    pub open spec fn spec_render(
        &self,
        programs: MeshPrograms,
        viewport: Viewport,
        x: Transformation,
        y: Transformation,
        z: Transformation,
        camera: Camera,
    ) -> RecordingView {
        let linked = programs.with_created(MeshShader::Color);
        self.x.spec_render_with_color(
            programs,
            Self::red(),
            RenderStates::spec_default(),
            viewport,
            x,
            camera,
        ).followed_by(
            self.y.spec_render_with_color(
                linked,
                Self::green(),
                RenderStates::spec_default(),
                viewport,
                y,
                camera,
            ),
        ).followed_by(
            self.z.spec_render_with_color(
                linked,
                Self::blue(),
                RenderStates::spec_default(),
                viewport,
                z,
                camera,
            ),
        )
    }

    /// The axes whose arrows are the given meshes.
    pub fn new(x: Mesh, y: Mesh, z: Mesh) -> (axes: Axes)
        ensures
            axes == (Axes { x, y, z }),
    {
        Axes { x, y, z }
    }

    /// Render the axes. Must be called in a render target render function,
    /// for example in the closure of `Screen::write`. The three
    /// transformations are those of the arrows: `x` positions, orientates
    /// and scales the axes as a whole, `y` is `x` after a quarter turn about
    /// the z-axis, and `z` is `x` after a quarter turn back about the
    /// y-axis.
    pub fn render(
        &self,
        programs: &mut MeshPrograms,
        viewport: Viewport,
        x: &Transformation,
        y: &Transformation,
        z: &Transformation,
        camera: &Camera,
    ) -> (recording: Recording)
        requires
            self.x.reads_normal_matrix(&old(programs).color) ==> x.normal_matrix is Some,
            self.x.renders(&old(programs).color) && self.y.reads_normal_matrix(
                &old(programs).color,
            ) ==> y.normal_matrix is Some,
            self.x.renders(&old(programs).color) && self.y.renders(&old(programs).color)
                && self.z.reads_normal_matrix(&old(programs).color) ==> z.normal_matrix is Some,
        ensures
            recording@ == self.spec_render(*old(programs), viewport, *x, *y, *z, *camera),
            *final(programs) == old(programs).with_created(MeshShader::Color),
    {
        let red = self.x.render_with_color(
            programs,
            &Vec4 { x: ONE, y: ZERO, z: ZERO, w: ONE },
            RenderStates::default(),
            viewport,
            x,
            camera,
        );
        if !red.is_ok() {
            return red;
        }
        let green = self.y.render_with_color(
            programs,
            &Vec4 { x: ZERO, y: ONE, z: ZERO, w: ONE },
            RenderStates::default(),
            viewport,
            y,
            camera,
        );
        if !green.is_ok() {
            return red.followed_by(green);
        }
        let blue = self.z.render_with_color(
            programs,
            &Vec4 { x: ZERO, y: ZERO, z: ONE, w: ONE },
            RenderStates::default(),
            viewport,
            z,
            camera,
        );
        red.followed_by(green).followed_by(blue)
    }
}

} // verus!

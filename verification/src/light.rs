//! Lights, as far as a pass that shades with them is concerned: a name for
//! each.

use vstd::prelude::*;
use crate::context::Command;
use crate::context::Program;

verus! {

/// The name of a light that shines from everywhere.
#[derive(Clone, Copy, Debug, PartialEq, Eq, Structural)]
pub struct AmbientLight {
    pub id: u32,
}

/// The name of a light that shines in one direction from far away.
#[derive(Clone, Copy, Debug, PartialEq, Eq, Structural)]
pub struct DirectionalLight {
    pub id: u32,
}

/// The name of a light that shines in a cone from one point.
#[derive(Clone, Copy, Debug, PartialEq, Eq, Structural)]
pub struct SpotLight {
    pub id: u32,
}

/// The name of a light that shines in all directions from one point.
#[derive(Clone, Copy, Debug, PartialEq, Eq, Structural)]
pub struct PointLight {
    pub id: u32,
}

/// What handing the directional lights to an effect issues: one command for
/// each, in order, with its place in the list.
pub open spec fn spec_bind_directional_lights(
    effect: Program,
    lights: Seq<&DirectionalLight>,
) -> Seq<Command> {
    Seq::new(
        lights.len(),
        |i: int| Command::BindDirectionalLight { effect, light: *lights[i], index: i as usize },
    )
}

/// What handing the spot lights to an effect issues: one command for each,
/// in order, with its place in the list.
pub open spec fn spec_bind_spot_lights(effect: Program, lights: Seq<&SpotLight>) -> Seq<Command> {
    Seq::new(
        lights.len(),
        |i: int| Command::BindSpotLight { effect, light: *lights[i], index: i as usize },
    )
}

/// What handing the point lights to an effect issues: one command for each,
/// in order, with its place in the list.
pub open spec fn spec_bind_point_lights(effect: Program, lights: Seq<&PointLight>) -> Seq<Command> {
    Seq::new(
        lights.len(),
        |i: int| Command::BindPointLight { effect, light: *lights[i], index: i as usize },
    )
}

/// What handing the lights of a pass to an effect issues: the ambient light
/// or its absence, then the directional lights, the spot lights and the
/// point lights.
pub open spec fn spec_bind_lights(
    effect: Program,
    ambient_light: Option<&AmbientLight>,
    directional_lights: Seq<&DirectionalLight>,
    spot_lights: Seq<&SpotLight>,
    point_lights: Seq<&PointLight>,
) -> Seq<Command> {
    seq![
        Command::BindAmbientLight {
            effect,
            light: match ambient_light {
                Some(light) => Some(*light),
                None => None,
            },
        },
    ] + spec_bind_directional_lights(effect, directional_lights) + spec_bind_spot_lights(
        effect,
        spot_lights,
    ) + spec_bind_point_lights(effect, point_lights)
}

/// The commands that hand the lights of a pass to an effect.
pub fn bind_lights(
    effect: Program,
    ambient_light: Option<&AmbientLight>,
    directional_lights: &[&DirectionalLight],
    spot_lights: &[&SpotLight],
    point_lights: &[&PointLight],
) -> (commands: Vec<Command>)
    ensures
        commands@ == spec_bind_lights(
            effect,
            ambient_light,
            directional_lights@,
            spot_lights@,
            point_lights@,
        ),
{
    let mut commands: Vec<Command> = Vec::new();
    commands.push(
        Command::BindAmbientLight {
            effect,
            light: match ambient_light {
                Some(light) => Some(*light),
                None => None,
            },
        },
    );
    let ghost ambient = commands@;
    let mut i: usize = 0;
    while i < directional_lights.len()
        invariant
            i <= directional_lights@.len(),
            commands@ == ambient + spec_bind_directional_lights(
                effect,
                directional_lights@.take(i as int),
            ),
        decreases directional_lights@.len() - i,
    {
        commands.push(
            Command::BindDirectionalLight { effect, light: *directional_lights[i], index: i },
        );
        i = i + 1;
    }
    let ghost directional = commands@;
    let mut i: usize = 0;
    while i < spot_lights.len()
        invariant
            i <= spot_lights@.len(),
            commands@ == directional + spec_bind_spot_lights(effect, spot_lights@.take(i as int)),
        decreases spot_lights@.len() - i,
    {
        commands.push(Command::BindSpotLight { effect, light: *spot_lights[i], index: i });
        i = i + 1;
    }
    let ghost spot = commands@;
    let mut i: usize = 0;
    while i < point_lights.len()
        invariant
            i <= point_lights@.len(),
            commands@ == spot + spec_bind_point_lights(effect, point_lights@.take(i as int)),
        decreases point_lights@.len() - i,
    {
        commands.push(Command::BindPointLight { effect, light: *point_lights[i], index: i });
        i = i + 1;
    }
    commands
}

} // verus!

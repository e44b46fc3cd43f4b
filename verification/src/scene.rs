//! The scene: an ordered list of drawing commands.
//!
//! A paint pass appends commands here; the compositor replays them in
//! order.  Later commands are layered on top of earlier ones.  Layer
//! commands (`PushLayer`/`PopLayer`) scope clipping and blending to the
//! commands between them.

use vstd::prelude::*;
use crate::draw::{BlendMode, Brush, BrushModel, FillRule, Image, ImageModel, StrokeStyle};
use crate::geom::Affine;
use crate::geom::Shape;
use crate::geom::ShapeModel;
use vstd::string::StringExecFns;

verus! {

/// One drawing command.
#[derive(Debug, PartialEq)]
pub enum Command {
    /// Fill `shape`, placed by `transform`, with `brush`.
    Fill { rule: FillRule, transform: Affine, brush: Brush, shape: Shape },
    /// Stroke the outline of `shape`, placed by `transform`.
    Stroke { style: StrokeStyle, transform: Affine, brush: Brush, shape: Shape },
    /// Open a layer: until the matching `PopLayer`, drawing is clipped to
    /// `clip` (placed by `transform`) and blended by `blend` with `alpha`
    /// (255 is opaque).
    PushLayer { blend: BlendMode, alpha: u8, transform: Affine, clip: Shape },
    /// Close the most recently opened layer.
    PopLayer,
    /// Draw an image, placed by `transform`.
    DrawImage { image: Image, transform: Affine },
    /// Draw a line of text at `size` logical units, placed by `transform`.
    DrawText { size: i64, transform: Affine, brush: Brush, text: String },
}

/// Mathematical model of one drawing command.
pub enum CommandModel {
    Fill { rule: FillRule, transform: Affine, brush: BrushModel, shape: ShapeModel },
    Stroke { style: StrokeStyle, transform: Affine, brush: BrushModel, shape: ShapeModel },
    PushLayer { blend: BlendMode, alpha: u8, transform: Affine, clip: ShapeModel },
    PopLayer,
    DrawImage { image: ImageModel, transform: Affine },
    DrawText { size: i64, transform: Affine, brush: BrushModel, text: Seq<char> },
}

impl View for Command {
    type V = CommandModel;

    open spec fn view(&self) -> CommandModel {
        match self {
            Command::Fill { rule, transform, brush, shape } => CommandModel::Fill {
                rule: *rule,
                transform: *transform,
                brush: brush@,
                shape: shape@,
            },
            Command::Stroke { style, transform, brush, shape } => CommandModel::Stroke {
                style: *style,
                transform: *transform,
                brush: brush@,
                shape: shape@,
            },
            Command::PushLayer { blend, alpha, transform, clip } => CommandModel::PushLayer {
                blend: *blend,
                alpha: *alpha,
                transform: *transform,
                clip: clip@,
            },
            Command::PopLayer => CommandModel::PopLayer,
            Command::DrawImage { image, transform } => CommandModel::DrawImage {
                image: image@,
                transform: *transform,
            },
            Command::DrawText { size, transform, brush, text } => CommandModel::DrawText {
                size: *size,
                transform: *transform,
                brush: brush@,
                text: text@,
            },
        }
    }
}

/// The transform of a command, in the model.
pub open spec fn cmd_transform(c: CommandModel) -> Affine {
    match c {
        CommandModel::Fill { transform, .. } => transform,
        CommandModel::Stroke { transform, .. } => transform,
        CommandModel::PushLayer { transform, .. } => transform,
        CommandModel::PopLayer => Affine::identity_spec(),
        CommandModel::DrawImage { transform, .. } => transform,
        CommandModel::DrawText { transform, .. } => transform,
    }
}

/// The same command with its placement composed under `t` (`t` applied
/// after the command's own transform).
pub open spec fn cmd_retransform(c: CommandModel, t: Affine) -> CommandModel {
    match c {
        CommandModel::Fill { rule, transform, brush, shape } => CommandModel::Fill {
            rule,
            transform: t.compose_spec(transform),
            brush,
            shape,
        },
        CommandModel::Stroke { style, transform, brush, shape } => CommandModel::Stroke {
            style,
            transform: t.compose_spec(transform),
            brush,
            shape,
        },
        CommandModel::PushLayer { blend, alpha, transform, clip } => CommandModel::PushLayer {
            blend,
            alpha,
            transform: t.compose_spec(transform),
            clip,
        },
        CommandModel::PopLayer => CommandModel::PopLayer,
        CommandModel::DrawImage { image, transform } => CommandModel::DrawImage {
            image,
            transform: t.compose_spec(transform),
        },
        CommandModel::DrawText { size, transform, brush, text } => CommandModel::DrawText {
            size,
            transform: t.compose_spec(transform),
            brush,
            text,
        },
    }
}

/// `t` can be composed with the command's transform without overflow.
pub open spec fn cmd_retransform_ok(c: CommandModel, t: Affine) -> bool {
    t.compose_ok(cmd_transform(c))
}

/// A sequence of commands, each retransformed under `t`.
pub open spec fn cmds_retransform(cs: Seq<CommandModel>, t: Affine) -> Seq<CommandModel> {
    cs.map(|i: int, c: CommandModel| cmd_retransform(c, t))
}

/// Every command of the sequence can be retransformed under `t` without
/// overflow.
pub open spec fn cmds_retransform_fit(cs: Seq<CommandModel>, t: Affine) -> bool {
    forall|i: int| 0 <= i < cs.len() ==> cmd_retransform_ok(#[trigger] cs[i], t)
}

/// An ordered buffer of drawing commands.
#[derive(Debug, PartialEq)]
pub struct SceneBuf {
    commands: Vec<Command>,
}

impl View for SceneBuf {
    type V = Seq<CommandModel>;

    closed spec fn view(&self) -> Seq<CommandModel> {
        Seq::new(self.commands@.len(), |i: int| self.commands@[i]@)
    }
}

impl Clone for Command {
    fn clone(&self) -> (r: Self)
        ensures
            r@ == self@,
    {
        match self {
            Command::Fill { rule, transform, brush, shape } => Command::Fill {
                rule: *rule,
                transform: *transform,
                brush: brush.clone(),
                shape: shape.clone(),
            },
            Command::Stroke { style, transform, brush, shape } => Command::Stroke {
                style: *style,
                transform: *transform,
                brush: brush.clone(),
                shape: shape.clone(),
            },
            Command::PushLayer { blend, alpha, transform, clip } => Command::PushLayer {
                blend: *blend,
                alpha: *alpha,
                transform: *transform,
                clip: clip.clone(),
            },
            Command::PopLayer => Command::PopLayer,
            Command::DrawImage { image, transform } => Command::DrawImage {
                image: image.clone(),
                transform: *transform,
            },
            Command::DrawText { size, transform, brush, text } => Command::DrawText {
                size: *size,
                transform: *transform,
                brush: brush.clone(),
                text: text.clone(),
            },
        }
    }
}

impl SceneBuf {
    pub fn new() -> (s: SceneBuf)
        ensures
            s@ == Seq::<CommandModel>::empty(),
    {
        let s = SceneBuf { commands: Vec::new() };
        proof {
            assert(s@ =~= Seq::<CommandModel>::empty());
        }
        s
    }

    /// The commands recorded so far, in drawing order.
    pub fn commands(&self) -> (r: &Vec<Command>)
        ensures
            r@.len() == self@.len(),
            forall|i: int| 0 <= i < r@.len() ==> r@[i]@ == self@[i],
    {
        &self.commands
    }

    pub fn len(&self) -> (n: usize)
        ensures
            n == self@.len(),
    {
        self.commands.len()
    }

    fn push_cmd(&mut self, c: Command)
        ensures
            final(self)@ == old(self)@.push(c@),
    {
        self.commands.push(c);
        proof {
            assert(final(self)@ =~= old(self)@.push(c@));
        }
    }

    /// Record a fill of `shape` with `brush`, placed by `transform`.
    pub fn fill(&mut self, rule: FillRule, transform: Affine, brush: &Brush, shape: &Shape)
        ensures
            final(self)@ == old(self)@.push(
                CommandModel::Fill { rule, transform, brush: brush@, shape: shape@ },
            ),
    {
        self.push_cmd(
            Command::Fill { rule, transform, brush: brush.clone(), shape: shape.clone() },
        );
    }

    /// Record a stroke of the outline of `shape`, placed by `transform`.
    pub fn stroke(&mut self, style: &StrokeStyle, transform: Affine, brush: &Brush, shape: &Shape)
        ensures
            final(self)@ == old(self)@.push(
                CommandModel::Stroke { style: *style, transform, brush: brush@, shape: shape@ },
            ),
    {
        self.push_cmd(
            Command::Stroke { style: *style, transform, brush: brush.clone(), shape: shape.clone() },
        );
    }

    /// Open a layer clipped to `clip` (placed by `transform`), blended by
    /// `blend` with `alpha`.
    pub fn push_layer(&mut self, blend: BlendMode, alpha: u8, transform: Affine, clip: &Shape)
        ensures
            final(self)@ == old(self)@.push(
                CommandModel::PushLayer { blend, alpha, transform, clip: clip@ },
            ),
    {
        self.push_cmd(Command::PushLayer { blend, alpha, transform, clip: clip.clone() });
    }

    /// Close the most recently opened layer.
    pub fn pop_layer(&mut self)
        ensures
            final(self)@ == old(self)@.push(CommandModel::PopLayer),
    {
        self.push_cmd(Command::PopLayer);
    }

    /// Record an image draw, placed by `transform`.
    pub fn draw_image(&mut self, image: &Image, transform: Affine)
        ensures
            final(self)@ == old(self)@.push(CommandModel::DrawImage { image: image@, transform }),
    {
        self.push_cmd(Command::DrawImage { image: image.clone(), transform });
    }

    /// Record a line of text, placed by `transform`.
    pub fn draw_text(&mut self, size: i64, transform: Affine, brush: &Brush, text: &str)
        ensures
            final(self)@ == old(self)@.push(
                CommandModel::DrawText { size, transform, brush: brush@, text: text@ },
            ),
    {
        self.push_cmd(
            Command::DrawText { size, transform, brush: brush.clone(), text: String::from_str(text) },
        );
    }

    /// Append every command of `other`, placed by `transform` composed
    /// over each command's own placement.
    pub fn append(&mut self, other: &SceneBuf, transform: Affine)
        requires
            cmds_retransform_fit(other@, transform),
        ensures
            final(self)@ == old(self)@ + cmds_retransform(other@, transform),
    {
        let mut i: usize = 0;
        while i < other.commands.len()
            invariant
                i <= other@.len(),
                other.commands@.len() == other@.len(),
                forall|j: int| 0 <= j < other@.len() ==> other.commands@[j]@ == other@[j],
                cmds_retransform_fit(other@, transform),
                self@ == old(self)@ + cmds_retransform(other@.subrange(0, i as int), transform),
            decreases other@.len() - i,
        {
            let c = other.commands[i].clone();
            let placed = match c {
                Command::Fill { rule, transform: ct, brush, shape } => Command::Fill {
                    rule,
                    transform: transform.compose(ct),
                    brush,
                    shape,
                },
                Command::Stroke { style, transform: ct, brush, shape } => Command::Stroke {
                    style,
                    transform: transform.compose(ct),
                    brush,
                    shape,
                },
                Command::PushLayer { blend, alpha, transform: ct, clip } => Command::PushLayer {
                    blend,
                    alpha,
                    transform: transform.compose(ct),
                    clip,
                },
                Command::PopLayer => Command::PopLayer,
                Command::DrawImage { image, transform: ct } => Command::DrawImage {
                    image,
                    transform: transform.compose(ct),
                },
                Command::DrawText { size, transform: ct, brush, text } => Command::DrawText {
                    size,
                    transform: transform.compose(ct),
                    brush,
                    text,
                },
            };
            assert(placed@ == cmd_retransform(other@[i as int], transform));
            self.push_cmd(placed);
            proof {
                assert(cmds_retransform(other@.subrange(0, i + 1 as int), transform) =~= cmds_retransform(
                    other@.subrange(0, i as int),
                    transform,
                ).push(cmd_retransform(other@[i as int], transform)));
            }
            i = i + 1;
        }
        proof {
            assert(other@.subrange(0, other@.len() as int) =~= other@);
        }
    }
}

/// Net layer depth of a command: `PushLayer` opens one, `PopLayer` closes
/// one, every other command leaves the stack as it is.
pub open spec fn cmd_depth_delta(c: CommandModel) -> int {
    match c {
        CommandModel::PushLayer { .. } => 1,
        CommandModel::PopLayer => -1,
        _ => 0,
    }
}

/// Net layer depth of a command sequence.
pub open spec fn cmds_depth(cs: Seq<CommandModel>) -> int
    decreases cs.len(),
{
    if cs.len() == 0 {
        0
    } else {
        cmds_depth(cs.drop_last()) + cmd_depth_delta(cs.last())
    }
}

/// A command sequence is layer-balanced when no prefix closes more layers
/// than it opened and the whole sequence closes every layer it opens.
pub open spec fn cmds_balanced(cs: Seq<CommandModel>) -> bool {
    &&& cmds_depth(cs) == 0
    &&& forall|i: int| 0 <= i <= cs.len() ==> cmds_depth(#[trigger] cs.subrange(0, i)) >= 0
}

/// Retransforming commands changes placements only, never the layer
/// structure.
pub proof fn lemma_cmds_retransform_depth(cs: Seq<CommandModel>, t: Affine)
    ensures
        cmds_depth(cmds_retransform(cs, t)) == cmds_depth(cs),
    decreases cs.len(),
{
    if cs.len() == 0 {
        assert(cmds_retransform(cs, t) =~= Seq::<CommandModel>::empty());
    } else {
        lemma_cmds_retransform_depth(cs.drop_last(), t);
        assert(cmds_retransform(cs, t).drop_last() =~= cmds_retransform(cs.drop_last(), t));
        assert(cmds_retransform(cs, t).last() == cmd_retransform(cs.last(), t));
        assert(cmd_depth_delta(cmd_retransform(cs.last(), t)) == cmd_depth_delta(cs.last()));
    }
}

/// A prefix of a retransformed sequence is the retransformed prefix.
pub proof fn lemma_cmds_retransform_prefix(cs: Seq<CommandModel>, t: Affine, i: int)
    requires
        0 <= i <= cs.len(),
    ensures
        cmds_retransform(cs, t).subrange(0, i) == cmds_retransform(cs.subrange(0, i), t),
{
    assert(cmds_retransform(cs, t).subrange(0, i) =~= cmds_retransform(cs.subrange(0, i), t));
}

pub proof fn lemma_cmds_depth_concat(a: Seq<CommandModel>, b: Seq<CommandModel>)
    ensures
        cmds_depth(a + b) == cmds_depth(a) + cmds_depth(b),
    decreases b.len(),
{
    if b.len() == 0 {
        assert(a + b =~= a);
    } else {
        lemma_cmds_depth_concat(a, b.drop_last());
        assert((a + b).drop_last() =~= a + b.drop_last());
        assert((a + b).last() == b.last());
    }
}

} // verus!

//! Blend modes and the blend states of the built-in materials.
//!
//! A blend mode names the compositing rule a segment is drawn with; a blend
//! state spells that rule out as the source/destination factors and the
//! operation the renderer applies to the color and alpha channels.

use vstd::prelude::*;

verus! {

/// Compositing rule of a mesh segment, as reported by the animation runtime.
#[derive(Clone, Copy, Debug, PartialEq, Eq, Structural)]
pub enum BlendMode {
    Normal,
    Additive,
    Multiply,
    Screen,
}

/// Multiplier applied to the source or destination value of a blend.
#[derive(Clone, Copy, Debug, PartialEq, Eq, Structural)]
pub enum BlendFactor {
    One,
    SrcAlpha,
    OneMinusSrc,
    OneMinusSrcAlpha,
    Dst,
}

/// How the scaled source and destination values are combined.
#[derive(Clone, Copy, Debug, PartialEq, Eq, Structural)]
pub enum BlendOperation {
    Add,
}

/// Blend equation of one channel: `operation(src * src_factor, dst * dst_factor)`.
#[derive(Clone, Copy, Debug, PartialEq, Eq, Structural)]
pub struct BlendComponent {
    pub src_factor: BlendFactor,
    pub dst_factor: BlendFactor,
    pub operation: BlendOperation,
}

/// Per-draw blend state: one equation for the color channels, one for alpha.
#[derive(Clone, Copy, Debug, PartialEq, Eq, Structural)]
pub struct BlendState {
    pub color: BlendComponent,
    pub alpha: BlendComponent,
}

/// The blend state a built-in material of the given blend mode and alpha
/// convention configures its render pipeline with.
pub open spec fn spec_default_blend_state(mode: BlendMode, premultiplied_alpha: bool) -> BlendState {
    match mode {
        BlendMode::Normal => (BlendState {
            color: BlendComponent {
                src_factor: if premultiplied_alpha { BlendFactor::One } else { BlendFactor::SrcAlpha },
                dst_factor: BlendFactor::OneMinusSrcAlpha,
                operation: BlendOperation::Add,
            },
            alpha: BlendComponent {
                src_factor: BlendFactor::One,
                dst_factor: BlendFactor::OneMinusSrcAlpha,
                operation: BlendOperation::Add,
            },
        }),
        BlendMode::Additive => (BlendState {
            color: BlendComponent {
                src_factor: if premultiplied_alpha { BlendFactor::One } else { BlendFactor::SrcAlpha },
                dst_factor: BlendFactor::One,
                operation: BlendOperation::Add,
            },
            alpha: BlendComponent {
                src_factor: BlendFactor::One,
                dst_factor: BlendFactor::One,
                operation: BlendOperation::Add,
            },
        }),
        BlendMode::Multiply => (BlendState {
            color: BlendComponent {
                src_factor: BlendFactor::Dst,
                dst_factor: BlendFactor::OneMinusSrcAlpha,
                operation: BlendOperation::Add,
            },
            alpha: BlendComponent {
                src_factor: BlendFactor::OneMinusSrcAlpha,
                dst_factor: BlendFactor::OneMinusSrcAlpha,
                operation: BlendOperation::Add,
            },
        }),
        BlendMode::Screen => (BlendState {
            color: BlendComponent {
                src_factor: BlendFactor::One,
                dst_factor: BlendFactor::OneMinusSrcAlpha,
                operation: BlendOperation::Add,
            },
            alpha: BlendComponent {
                src_factor: BlendFactor::OneMinusSrc,
                dst_factor: BlendFactor::OneMinusSrcAlpha,
                operation: BlendOperation::Add,
            },
        }),
    }
}

/// Blend state of the built-in material for the given blend mode and alpha
/// convention.
pub fn default_blend_state(mode: BlendMode, premultiplied_alpha: bool) -> (r: BlendState)
    ensures
        r == spec_default_blend_state(mode, premultiplied_alpha),
{
    let color_src: BlendFactor = match mode {
        BlendMode::Normal | BlendMode::Additive => {
            if premultiplied_alpha {
                BlendFactor::One
            } else {
                BlendFactor::SrcAlpha
            }
        },
        BlendMode::Multiply => BlendFactor::Dst,
        BlendMode::Screen => BlendFactor::One,
    };
    let color_dst: BlendFactor = match mode {
        BlendMode::Additive => BlendFactor::One,
        BlendMode::Normal | BlendMode::Multiply | BlendMode::Screen => BlendFactor::OneMinusSrcAlpha,
    };
    let alpha_src: BlendFactor = match mode {
        BlendMode::Normal | BlendMode::Additive => BlendFactor::One,
        BlendMode::Multiply => BlendFactor::OneMinusSrcAlpha,
        BlendMode::Screen => BlendFactor::OneMinusSrc,
    };
    let alpha_dst: BlendFactor = match mode {
        BlendMode::Additive => BlendFactor::One,
        BlendMode::Normal | BlendMode::Multiply | BlendMode::Screen => BlendFactor::OneMinusSrcAlpha,
    };
    BlendState {
        color: BlendComponent {
            src_factor: color_src,
            dst_factor: color_dst,
            operation: BlendOperation::Add,
        },
        alpha: BlendComponent {
            src_factor: alpha_src,
            dst_factor: alpha_dst,
            operation: BlendOperation::Add,
        },
    }
}

} // verus!

use vstd::prelude::*;

verus! {

/// The colour scheme of the user interface.
#[derive(Clone, Copy, PartialEq, Eq, Debug, Structural)]
pub enum AppTheme {
    /// The toolkit's own light and dark schemes.
    EguiDefault,
    /// The Breeze schemes.
    Breeze,
    /// The Solarized schemes.
    Solarized,
}

impl Default for AppTheme {
    fn default() -> (r: Self)
        ensures
            r == AppTheme::Breeze,
    {
        AppTheme::Breeze
    }
}

/// A colour as red, green, blue and alpha channels with premultiplied alpha.
#[derive(Clone, Copy, PartialEq, Eq, Debug, Structural)]
pub struct Rgba {
    /// Red channel.
    pub r: u8,
    /// Green channel.
    pub g: u8,
    /// Blue channel.
    pub b: u8,
    /// Alpha channel.
    pub a: u8,
}

/// A channel lowered by `amount`, stopping at zero.
pub open spec fn channel_down(c: u8, amount: u8) -> u8 {
    if c < amount {
        0
    } else {
        (c - amount) as u8
    }
}

/// A channel raised by `amount`, stopping at 255.
pub open spec fn channel_up(c: u8, amount: u8) -> u8 {
    if c + amount > 255 {
        255
    } else {
        (c + amount) as u8
    }
}

/// The colour with its red, green and blue channels lowered by `amount`,
/// each stopping at zero; alpha is kept.
pub fn darker(color: Rgba, amount: u8) -> (d: Rgba)
    ensures
        d.r == channel_down(color.r, amount),
        d.g == channel_down(color.g, amount),
        d.b == channel_down(color.b, amount),
        d.a == color.a,
{
    Rgba {
        r: color.r.saturating_sub(amount),
        g: color.g.saturating_sub(amount),
        b: color.b.saturating_sub(amount),
        a: color.a,
    }
}

/// The colour with its red, green and blue channels raised by `amount`,
/// each stopping at 255; alpha is kept.
pub fn lighter(color: Rgba, amount: u8) -> (l: Rgba)
    ensures
        l.r == channel_up(color.r, amount),
        l.g == channel_up(color.g, amount),
        l.b == channel_up(color.b, amount),
        l.a == color.a,
{
    Rgba {
        r: color.r.saturating_add(amount),
        g: color.g.saturating_add(amount),
        b: color.b.saturating_add(amount),
        a: color.a,
    }
}

/// The colour darkened by `amount`, as `darker` computes it.
pub open spec fn darkened(c: Rgba, amount: u8) -> Rgba {
    Rgba {
        r: channel_down(c.r, amount),
        g: channel_down(c.g, amount),
        b: channel_down(c.b, amount),
        a: c.a,
    }
}

/// The colour lightened by `amount`, as `lighter` computes it.
pub open spec fn lightened(c: Rgba, amount: u8) -> Rgba {
    Rgba {
        r: channel_up(c.r, amount),
        g: channel_up(c.g, amount),
        b: channel_up(c.b, amount),
        a: c.a,
    }
}

/// Darkening never raises a channel and lightening never lowers one; by zero
/// both leave the colour as it is; and lightening undoes darkening by the
/// same amount when no channel had to stop at zero, as darkening undoes
/// lightening when none had to stop at 255.
pub proof fn lemma_shading(c: Rgba, amount: u8)
    ensures
        darkened(c, amount).r <= c.r && darkened(c, amount).g <= c.g && darkened(c, amount).b
            <= c.b,
        lightened(c, amount).r >= c.r && lightened(c, amount).g >= c.g && lightened(c, amount).b
            >= c.b,
        darkened(c, 0) == c,
        lightened(c, 0) == c,
        c.r >= amount && c.g >= amount && c.b >= amount ==> lightened(darkened(c, amount), amount)
            == c,
        c.r + amount <= 255 && c.g + amount <= 255 && c.b + amount <= 255 ==> darkened(
            lightened(c, amount),
            amount,
        ) == c,
{
}

} // verus!

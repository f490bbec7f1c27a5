use vstd::prelude::*;

verus! {

/// Number of cells in the battery gauge.
pub const BAR_CELLS: u8 = 10;

/// `n` copies of `cell`, one after the other.
pub open spec fn repeat(cell: Seq<char>, n: nat) -> Seq<char>
    decreases n,
{
    if n == 0 {
        Seq::empty()
    } else {
        repeat(cell, (n - 1) as nat) + cell
    }
}

/// How many of the gauge's ten cells a charge fills: the charge in tenths,
/// rounded half up.
pub open spec fn filled_cells(charge_pct: u8) -> nat {
    ((charge_pct + 5) / 10) as nat
}

/// The battery gauge for a charge: filled cells, then empty ones, in brackets.
pub open spec fn battery_bar(charge_pct: u8) -> Seq<char> {
    "["@ + repeat("▪"@, filled_cells(charge_pct)) + repeat(
        "░"@,
        (BAR_CELLS - filled_cells(charge_pct)) as nat,
    ) + "]"@
}

fn push_repeated(s: &mut String, cell: &str, n: u8)
    ensures
        final(s)@ == old(s)@ + repeat(cell@, n as nat),
{
    let mut i: u8 = 0;
    assert(s@ =~= old(s)@ + repeat(cell@, 0));
    while i < n
        invariant
            i <= n,
            s@ == old(s)@ + repeat(cell@, i as nat),
        decreases n - i,
    {
        s.append(cell);
        i = i + 1;
        assert(s@ =~= old(s)@ + repeat(cell@, i as nat));
    }
}

/// Draws the battery gauge for a charge of at most 104 percent (beyond that
/// the gauge would overflow its ten cells).
pub fn create_battery_bar(charge_pct: u8) -> (r: String)
    requires
        charge_pct <= 104,
    ensures
        r@ == battery_bar(charge_pct),
{
    let filled: u8 = ((charge_pct as u16 + 5) / 10) as u8;
    let mut s = String::from_str("[");
    push_repeated(&mut s, "▪", filled);
    push_repeated(&mut s, "░", BAR_CELLS - filled);
    s.append("]");
    s
}

/// The colour band of a battery level.
#[derive(Debug, Clone, Copy, PartialEq, Eq, Structural)]
pub enum BatteryColor {
    Green,
    Yellow,
    Red,
}

/// Green from 70 percent, yellow from 30, red below.
pub fn get_battery_color(charge_pct: u8) -> (r: BatteryColor)
    ensures
        r == (if charge_pct >= 70 {
            BatteryColor::Green
        } else if charge_pct >= 30 {
            BatteryColor::Yellow
        } else {
            BatteryColor::Red
        }),
{
    if charge_pct >= 70 {
        BatteryColor::Green
    } else if charge_pct >= 30 {
        BatteryColor::Yellow
    } else {
        BatteryColor::Red
    }
}

} // verus!

//! Stacking bookkeeping (which managed windows belong to which workspace stack) and server-side
//! decoration styling.

#[allow(unused_imports)]
use vstd::prelude::*;
use crate::model::WindowLayout;
use crate::window_policy::WindowRole;

verus! {

/// Z-order bookkeeping that keeps shell-visible windows in a stable back-to-front stack.
#[derive(Clone, Copy, Debug, PartialEq, Eq, Structural)]
pub struct StackingLayout;

/// Entry point of the shell: its systems are registered with the compositor's scheduler.
#[derive(Clone, Copy, Debug, PartialEq, Eq, Structural)]
pub struct ShellPlugin;

/// A window as stacking sees it.
#[derive(Clone, Copy, Debug, PartialEq, Eq, Structural)]
pub struct StackedWindow {
    pub surface_id: u64,
    pub role: WindowRole,
    /// Workspace id of the window's workspace (also when that workspace is disabled).
    pub workspace: Option<u32>,
}

/// Stack bucket of a window: its workspace, or the unassigned stack.
pub open spec fn stack_bucket(window: StackedWindow, unassigned_stack: u32) -> u32 {
    match window.workspace {
        Some(id) => id,
        None => unassigned_stack,
    }
}

/// The managed windows with their stack buckets, in window order.
pub open spec fn stacked_surfaces(windows: Seq<StackedWindow>, unassigned_stack: u32) -> Seq<(u64, u32)>
    decreases windows.len(),
{
    if windows.len() == 0 {
        seq![]
    } else {
        let rest = stacked_surfaces(windows.drop_last(), unassigned_stack);
        let window = windows.last();
        if window.role == WindowRole::Managed {
            rest.push((window.surface_id, stack_bucket(window, unassigned_stack)))
        } else {
            rest
        }
    }
}

/// The managed windows the stacking state must know, each with the workspace stack it belongs
/// in (the unassigned stack without a workspace), in window order; the stacking state keeps
/// exactly these and adds the missing ones at the top of their stack.
pub fn stacking_layout_system(windows: &Vec<StackedWindow>, unassigned_stack: u32) -> (known: Vec<(u64, u32)>)
    ensures
        known@ == stacked_surfaces(windows@, unassigned_stack),
{
    let mut known: Vec<(u64, u32)> = Vec::new();
    let mut i: usize = 0;
    while i < windows.len()
        invariant
            i <= windows@.len(),
            known@ == stacked_surfaces(windows@.take(i as int), unassigned_stack),
        decreases windows.len() - i,
    {
        proof {
            assert(windows@.take(i + 1).drop_last() =~= windows@.take(i as int));
        }
        let window = windows[i];
        if window.role == WindowRole::Managed {
            let bucket = match window.workspace {
                Some(id) => id,
                None => unassigned_stack,
            };
            known.push((window.surface_id, bucket));
        }
        i += 1;
    }
    assert(windows@.take(i as int) =~= windows@);
    known
}

/// Border styling of a window.
#[derive(Clone, Debug, PartialEq, Eq)]
pub struct BorderTheme {
    pub color: String,
    pub width: u32,
}

/// Border widths by layout.
#[derive(Clone, Copy, Debug, PartialEq, Eq, Structural)]
pub struct BorderWidths {
    pub tiled: u32,
    pub floating: u32,
}

/// Border width for a layout.
pub open spec fn border_width_for(widths: BorderWidths, layout: WindowLayout) -> u32 {
    match layout {
        WindowLayout::Tiled => widths.tiled,
        WindowLayout::Floating => widths.floating,
    }
}

/// Copies the configured border colour into every window's border, with the width of its
/// layout.
pub fn server_decoration_system(
    border_color: &String,
    widths: BorderWidths,
    borders: &mut Vec<(WindowLayout, BorderTheme)>,
)
    ensures
        final(borders)@.len() == old(borders)@.len(),
        forall|i: int|
            0 <= i < old(borders)@.len() ==> (#[trigger] final(borders)@[i]).0 == old(borders)@[i].0
                && final(borders)@[i].1.color == *border_color && final(borders)@[i].1.width
                == border_width_for(widths, old(borders)@[i].0),
{
    let ghost before = borders@;
    let mut i: usize = 0;
    while i < borders.len()
        invariant
            i <= borders@.len(),
            borders@.len() == before.len(),
            forall|j: int| i <= j < before.len() ==> borders@[j] == before[j],
            forall|j: int|
                0 <= j < i ==> (#[trigger] borders@[j]).0 == before[j].0 && borders@[j].1.color
                    == *border_color && borders@[j].1.width == border_width_for(widths, before[j].0),
        decreases borders.len() - i,
    {
        let layout = borders[i].0;
        let width = match layout {
            WindowLayout::Tiled => widths.tiled,
            WindowLayout::Floating => widths.floating,
        };
        let theme = BorderTheme { color: border_color.clone(), width };
        borders.set(i, (layout, theme));
        i += 1;
    }
}

} // verus!

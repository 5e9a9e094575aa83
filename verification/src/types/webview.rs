use vstd::arithmetic::power2::{lemma2_to64, lemma_pow2_unfold, pow2};
use vstd::prelude::*;

verus! {

/// Represents a Windows `HWND` as an integer.
#[derive(Debug, Clone, Copy, PartialEq, Eq, Hash)]
pub struct Handle(pub isize);

impl Handle {
    /// The `NULL` handle.
    pub fn null() -> (h: Self)
        ensures
            h.0 == 0,
    {
        Handle(0)
    }
}

/// A context menu item. Each has a bit of its own in the menu item mask of
/// the engine.
#[derive(Debug, Copy, Clone, Hash, PartialEq, Eq)]
pub enum MenuItemId {
    MenuSelectedAllId,
    MenuSelectedTextId,
    MenuUndoId,
    MenuCopyImageId,
    MenuInspectElementAtId,
    MenuCutId,
    MenuPasteId,
    MenuPrintId,
    MenuGoForwardId,
    MenuGoBackId,
    MenuReloadId,
    MenuSaveImageId,
}

impl MenuItemId {
    /// The position of the item's bit in the mask.
    pub open spec fn spec_bit(self) -> nat {
        match self {
            MenuItemId::MenuSelectedAllId => 1,
            MenuItemId::MenuSelectedTextId => 2,
            MenuItemId::MenuUndoId => 3,
            MenuItemId::MenuCopyImageId => 4,
            MenuItemId::MenuInspectElementAtId => 5,
            MenuItemId::MenuCutId => 6,
            MenuItemId::MenuPasteId => 7,
            MenuItemId::MenuPrintId => 8,
            MenuItemId::MenuGoForwardId => 9,
            MenuItemId::MenuGoBackId => 10,
            MenuItemId::MenuReloadId => 11,
            MenuItemId::MenuSaveImageId => 12,
        }
    }

    /// The engine's menu item code: the item's bit.
    pub fn to(&self) -> (r: i32)
        ensures
            r == pow2(self.spec_bit()),
    {
        proof {
            lemma2_to64();
            lemma_pow2_unfold(self.spec_bit());
            lemma_pow2_unfold(12);
            lemma_pow2_unfold(11);
            lemma_pow2_unfold(10);
            lemma_pow2_unfold(9);
            lemma_pow2_unfold(8);
            lemma_pow2_unfold(7);
        }
        match self {
            MenuItemId::MenuSelectedAllId => 2,
            MenuItemId::MenuSelectedTextId => 4,
            MenuItemId::MenuUndoId => 8,
            MenuItemId::MenuCopyImageId => 16,
            MenuItemId::MenuInspectElementAtId => 32,
            MenuItemId::MenuCutId => 64,
            MenuItemId::MenuPasteId => 128,
            MenuItemId::MenuPrintId => 256,
            MenuItemId::MenuGoForwardId => 512,
            MenuItemId::MenuGoBackId => 1024,
            MenuItemId::MenuReloadId => 2048,
            MenuItemId::MenuSaveImageId => 4096,
        }
    }
}

/// Different menu items have different bits in the mask.
pub proof fn lemma_menu_item_bits_distinct(a: MenuItemId, b: MenuItemId)
    requires
        a != b,
    ensures
        a.spec_bit() != b.spec_bit(),
{
}

/// The settings of a view: the size of the record and the background color.
#[derive(Debug, Copy, Clone)]
pub struct ViewSettings {
    pub size: i32,
    pub backgroud_color: u32,
}

/// A point on the screen.
#[derive(Debug, Copy, Clone)]
pub struct Point {
    pub x: i32,
    pub y: i32,
}

/// A rect type with x, y, width, height params.
#[derive(Debug, Copy, Clone)]
pub struct Rect {
    pub x: i32,
    pub y: i32,
    pub width: i32,
    pub height: i32,
}

impl Rect {
    /// Create a rect type
    pub fn new(x: i32, y: i32, width: i32, height: i32) -> (r: Self)
        ensures
            r.x == x,
            r.y == y,
            r.width == width,
            r.height == height,
    {
        Self { x, y, width, height }
    }
}

/// The bit of each menu item in the engine's mask, from select all (bit 1,
/// code 2) to save image (bit 12, code 4096).
pub proof fn lemma_menu_item_engine_bits()
    ensures
        MenuItemId::MenuSelectedAllId.spec_bit() == 1,
        MenuItemId::MenuSelectedTextId.spec_bit() == 2,
        MenuItemId::MenuUndoId.spec_bit() == 3,
        MenuItemId::MenuCopyImageId.spec_bit() == 4,
        MenuItemId::MenuInspectElementAtId.spec_bit() == 5,
        MenuItemId::MenuCutId.spec_bit() == 6,
        MenuItemId::MenuPasteId.spec_bit() == 7,
        MenuItemId::MenuPrintId.spec_bit() == 8,
        MenuItemId::MenuGoForwardId.spec_bit() == 9,
        MenuItemId::MenuGoBackId.spec_bit() == 10,
        MenuItemId::MenuReloadId.spec_bit() == 11,
        MenuItemId::MenuSaveImageId.spec_bit() == 12,
{
}

} // verus!

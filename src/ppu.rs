use vstd::prelude::*;

pub mod frame;
pub mod registers;

use crate::memory::add16;
use frame::Frame;
use registers::{Address, Control, Data, Mask, OAMAddress, Register16, Register8, Status, WriteToggle};

verus! {

/// Dots (PPU cycles) per scanline.
pub const DOTS_PER_SCANLINE: u16 = 341;

/// The scanline whose start raises vertical blank.
pub const VBLANK_SCANLINE: u16 = 241;

/// Scanlines per frame.
pub const SCANLINES_PER_FRAME: u16 = 261;

/// The picture unit: its CPU-visible registers, video memory and timing.
pub struct PPU {
    pub control: Control,
    pub mask: Mask,
    pub status: Status,
    pub oamaddr: OAMAddress,
    pub oamdata: u16,
    pub ppuscroll: u16,
    pub address: Address,
    pub data: Data,
    pub frame: Frame,
    pub vram: [u8; 2048],
    pub oam_ram: [u8; 256],
    pub palette_ram: [u8; 32],
    pub w: WriteToggle,
    /// The dot within the scanline.
    pub cycles: u16,
    pub scanline: u16,
    /// Set when the unit raises a non-maskable interrupt; the driver clears it.
    pub nmi_triggered: bool,
    /// The cartridge's character (pattern) memory.
    pub chr: Vec<u8>,
}

/// Index into name-table memory of a PPU address in 0x2000-0x3EFF (two
/// nametables, each mirrored).
pub open spec fn vram_index(address: u16) -> int {
    (address % 2048) as int
}

impl PPU {
    /// Whether the timing counters are within a frame.
    pub open spec fn well_formed(self) -> bool {
        self.cycles <= DOTS_PER_SCANLINE && self.scanline < SCANLINES_PER_FRAME
    }

    /// The byte at `address` in the unit's own address space (which repeats
    /// every 0x4000): pattern memory below 0x2000 (0 past its end), name
    /// tables up to 0x3EFF, the 32-byte palette (repeating) above.
    pub open spec fn mem_read_spec(self, address: u16) -> u8 {
        let a = address % 0x4000;
        if a < 0x2000 {
            if a < self.chr@.len() {
                self.chr@[a as int]
            } else {
                0
            }
        } else if a < 0x3F00 {
            self.vram@[vram_index(a)]
        } else {
            self.palette_ram@[(a % 32) as int]
        }
    }

    /// The unit after `data` is written to `address`: pattern memory is
    /// read-only, and a write there changes nothing.
    pub open spec fn mem_write_spec(self, address: u16, data: u8) -> PPU {
        let a = address % 0x4000;
        if a < 0x2000 {
            self
        } else if a < 0x3F00 {
            PPU { vram: vstd::array::spec_array_update(self.vram, vram_index(a), data), ..self }
        } else {
            PPU { palette_ram: vstd::array::spec_array_update(self.palette_ram, (a % 32) as int, data), ..self }
        }
    }

    /// The unit after the VRAM address steps by the control register's
    /// increment.
    pub open spec fn increment_address_spec(self) -> PPU {
        PPU {
            address: Address { value: add16(self.address.value, self.control.vram_increment_spec() as int) },
            ..self
        }
    }

    /// Status read: returns the status, then leaves vertical blank.
    pub open spec fn read_status_spec(self) -> (u8, PPU) {
        (self.status.value, PPU { status: Status { value: self.status.value & 0x7F }, ..self })
    }

    /// Data read: returns the buffered byte, refills the buffer from the
    /// VRAM address, and steps the address.
    pub open spec fn read_data_spec(self) -> (u8, PPU) {
        (
            self.data.value,
            PPU { data: Data { value: self.mem_read_spec(self.address.value) }, ..self }.increment_address_spec(),
        )
    }

    /// Data write: stores at the VRAM address and steps the address.
    pub open spec fn write_data_spec(self, data: u8) -> PPU {
        self.mem_write_spec(self.address.value, data).increment_address_spec()
    }

    /// Control write; enabling the interrupt during vertical blank raises it.
    pub open spec fn write_control_spec(self, data: u8) -> PPU {
        let raised = !self.control.nmi_enable_spec() && (Control { value: data }).nmi_enable_spec()
            && self.status.in_v_blank_spec();
        PPU { control: Control { value: data }, nmi_triggered: self.nmi_triggered || raised, ..self }
    }

    /// Address write: the first sets the high byte (and clears the low), the
    /// second the low byte.
    pub open spec fn write_address_spec(self, data: u8) -> PPU {
        let value = match self.w {
            WriteToggle::FirstWrite => (data as u16 * 256) as u16,
            WriteToggle::SecondWrite => (self.address.value / 256 * 256 + data) as u16,
        };
        PPU { address: Address { value }, w: self.w.toggled(), ..self }
    }

    /// Pattern table used for the background: bit 4 of control.
    pub open spec fn background_table(self) -> u16 {
        if self.control.value & 0b0001_0000 != 0 {
            0x1000
        } else {
            0
        }
    }

    /// Pattern table used for sprites: bit 3 of control.
    pub open spec fn sprite_table(self) -> u16 {
        if self.control.value & 0b0000_1000 != 0 {
            0x1000
        } else {
            0
        }
    }

    /// Colour number (0 to 3) of pixel (`col`, `row`) of tile `tile`: bit
    /// `7 - col` of the tile's first plane is the low bit, of its second
    /// plane the high bit.
    pub open spec fn pattern_pixel(self, table: u16, tile: u8, row: u16, col: u16) -> u8 {
        let address = (table + tile * 16 + row) as u16;
        let low = (self.mem_read_spec(address) >> (7 - col) as u8) & 1;
        let high = (self.mem_read_spec((address + 8) as u16) >> (7 - col) as u8) & 1;
        (high * 2 + low) as u8
    }

    /// The background palette (0 to 3) of pixel (`x`, `y`): two bits of the
    /// attribute byte of its 32x32 block, chosen by its 16x16 quadrant.
    pub open spec fn background_palette_spec(self, x: u16, y: u16) -> u8 {
        let base = self.control.nametable_base_spec();
        let attribute = self.mem_read_spec((base + 0x3C0 + y / 32 * 8 + x / 32) as u16);
        let shift = (y % 32) / 16 * 4 + (x % 32) / 16 * 2;
        (attribute >> shift as u8) & 0b11
    }

    /// The system colour of background pixel (`x`, `y`): its tile from the
    /// name table, its colour number from the tile's pattern, its colour from
    /// the palette memory (colour number 0 is the shared backdrop).
    pub open spec fn background_pixel(self, x: u16, y: u16) -> u8 {
        let base = self.control.nametable_base_spec();
        let tile = self.mem_read_spec((base + y / 8 * 32 + x / 8) as u16);
        let index = self.pattern_pixel(self.background_table(), tile, y % 8, x % 8);
        let entry = if index == 0 {
            0
        } else {
            self.background_palette_spec(x, y) * 4 + index
        };
        self.palette_ram@[entry as int] & 0x3F
    }

    /// Frame bytes after pixel `k` (0 to 63, row by row) of sprite `i` is
    /// drawn on `f`; colour number 0 is transparent, pixels off the frame are
    /// dropped, and attribute bits 6 and 7 mirror the tile horizontally and
    /// vertically.
    pub open spec fn plot_sprite_pixel(self, f: Seq<u8>, i: int, k: int) -> Seq<u8> {
        let row = k / 8;
        let col = k % 8;
        let attribute = self.oam_ram@[4 * i + 2];
        let value = self.pattern_pixel(self.sprite_table(), self.oam_ram@[4 * i + 1], row as u16, col as u16);
        let x = self.oam_ram@[4 * i + 3] + if attribute & 0x40 != 0 { 7 - col } else { col };
        let y = self.oam_ram@[4 * i] + if attribute & 0x80 != 0 { 7 - row } else { row };
        if value == 0 || x >= 256 || y >= 240 {
            f
        } else {
            f.update(y * 256 + x, self.palette_ram@[0x10 + (attribute & 0b11) * 4 + value] & 0x3F)
        }
    }

    /// Frame bytes after the first `k` pixels of sprite `i` are drawn on `f`.
    pub open spec fn draw_sprite(self, f: Seq<u8>, i: int, k: nat) -> Seq<u8>
        decreases k,
    {
        if k == 0 {
            f
        } else {
            self.plot_sprite_pixel(self.draw_sprite(f, i, (k - 1) as nat), i, k - 1)
        }
    }

    /// Frame bytes after sprites 63 down to `64 - n` are drawn on `f`, so
    /// that lower-numbered sprites end up in front.
    pub open spec fn draw_sprites(self, f: Seq<u8>, n: nat) -> Seq<u8>
        decreases n,
    {
        if n == 0 {
            f
        } else {
            self.draw_sprite(self.draw_sprites(f, (n - 1) as nat), 64 - n, 64)
        }
    }

    /// The frame after one dot: a visible dot (1 to 256 of scanlines 0 to
    /// 239) draws its background pixel; the start of scanline 240 draws the
    /// sprites.
    pub open spec fn tick_frame_spec(self) -> Seq<u8> {
        self.frame_after_tick(self.frame.bytes@)
    }

    /// The frame bytes `f` after one dot of this unit.
    pub open spec fn frame_after_tick(self, f: Seq<u8>) -> Seq<u8> {
        if self.cycles >= DOTS_PER_SCANLINE {
            if self.scanline + 1 == 240 {
                self.draw_sprites(f, 64)
            } else {
                f
            }
        } else if 1 <= self.cycles <= 256 && self.scanline < 240 {
            let x = (self.cycles - 1) as u16;
            f.update(self.scanline * 256 + x, self.background_pixel(x, self.scanline))
        } else {
            f
        }
    }

    /// The unit after `n` dots, its frame given apart: the first component's
    /// frame is that of `self`, the second is the frame after the dots.
    pub open spec fn after_ticks(self, n: nat) -> (PPU, Seq<u8>)
        decreases n,
    {
        if n == 0 {
            (self, self.frame.bytes@)
        } else {
            let (q, f) = self.after_ticks((n - 1) as nat);
            let current = PPU { frame: self.frame, ..q };
            (PPU { frame: self.frame, ..current.tick_spec() }, current.frame_after_tick(f))
        }
    }

    /// The unit after one dot. At the end of a scanline the next one starts;
    /// reaching the vertical-blank scanline sets vertical blank (raising the
    /// interrupt if enabled) and skips a line; after the last scanline the
    /// frame starts over.
    pub open spec fn tick_spec(self) -> PPU {
        if self.cycles >= DOTS_PER_SCANLINE {
            let next = PPU { cycles: (self.cycles - DOTS_PER_SCANLINE + 1) as u16, ..self };
            if self.scanline + 1 >= SCANLINES_PER_FRAME {
                PPU { scanline: 0, ..next }
            } else if self.scanline + 1 == VBLANK_SCANLINE {
                PPU {
                    status: Status { value: self.status.value | 0x80 },
                    scanline: (self.scanline + 2) as u16,
                    nmi_triggered: self.nmi_triggered || self.control.nmi_enable_spec(),
                    ..next
                }
            } else {
                PPU { scanline: (self.scanline + 1) as u16, ..next }
            }
        } else {
            PPU { cycles: (self.cycles + 1) as u16, ..self }
        }
    }

    /// Drawing a sprite does not depend on the frame held by the unit.
    pub proof fn lemma_draw_sprite_ignores_frame(self, other: PPU, f: Seq<u8>, i: int, k: nat)
        requires
            other == (PPU { frame: other.frame, ..self }),
        ensures
            self.draw_sprite(f, i, k) == other.draw_sprite(f, i, k),
        decreases k,
    {
        if k > 0 {
            self.lemma_draw_sprite_ignores_frame(other, f, i, (k - 1) as nat);
        }
    }

    /// Drawing the sprites does not depend on the frame held by the unit.
    pub proof fn lemma_draw_sprites_ignores_frame(self, other: PPU, f: Seq<u8>, n: nat)
        requires
            other == (PPU { frame: other.frame, ..self }),
        ensures
            self.draw_sprites(f, n) == other.draw_sprites(f, n),
        decreases n,
    {
        if n > 0 {
            self.lemma_draw_sprites_ignores_frame(other, f, (n - 1) as nat);
            self.lemma_draw_sprite_ignores_frame(other, self.draw_sprites(f, (n - 1) as nat), 64 - n, 64);
        }
    }

    /// Power-up state, with `chr` as pattern memory.
    pub fn new(chr: Vec<u8>) -> (r: Self)
        ensures
            r.control.value == 0,
            r.mask.value == 0,
            r.status.value == 0b1010_0000,
            r.oamaddr.value == 0,
            r.oamdata == 0,
            r.ppuscroll == 0,
            r.address.value == 0,
            r.data.value == 0,
            forall|i: int| 0 <= i < frame::FRAME_SIZE ==> r.frame.bytes@[i] == 0,
            forall|i: int| 0 <= i < 2048 ==> r.vram@[i] == 0,
            forall|i: int| 0 <= i < 256 ==> r.oam_ram@[i] == 0,
            forall|i: int| 0 <= i < 32 ==> r.palette_ram@[i] == 0,
            r.w == WriteToggle::FirstWrite,
            r.cycles == 0,
            r.scanline == 0,
            !r.nmi_triggered,
            r.chr == chr,
            r.well_formed(),
    {
        PPU {
            control: Control::new(0b0000_0000),
            mask: Mask::new(0b0000_0000),
            status: Status::new(0b1010_0000),
            oamaddr: OAMAddress::new(0b0000_0000),
            oamdata: 0,
            ppuscroll: 0,
            address: Address::new(0x0000),
            data: Data::new(0b0000_0000),
            frame: Frame::new(),
            vram: [0u8; 2048],
            oam_ram: [0u8; 256],
            palette_ram: [0u8; 32],
            w: WriteToggle::FirstWrite,
            cycles: 0,
            scanline: 0,
            nmi_triggered: false,
            chr,
        }
    }

    pub fn write_control(&mut self, data: u8)
        ensures
            *final(self) == old(self).write_control_spec(data),
    {
        let current_nmi_enable = self.control.nmi_enable();
        self.control.write_u8(data);
        let next_nmi_enable = self.control.nmi_enable();
        if !current_nmi_enable && next_nmi_enable && self.status.is_in_v_blank() {
            self.nmi_triggered = true;
        }
    }

    pub fn read_status(&mut self) -> (r: u8)
        ensures
            (r, *final(self)) == old(self).read_status_spec(),
    {
        let result = self.status.read_u8();
        self.status.clear_v_blank();
        result
    }

    pub fn write_oam_address(&mut self, data: u8)
        ensures
            *final(self) == (PPU { oamaddr: OAMAddress { value: data }, ..*old(self) }),
    {
        self.oamaddr.write_u8(data);
    }

    pub fn write_mask(&mut self, data: u8)
        ensures
            *final(self) == (PPU { mask: Mask { value: data }, ..*old(self) }),
    {
        self.mask.write_u8(data);
    }

    pub fn write_address(&mut self, data: u8)
        ensures
            *final(self) == old(self).write_address_spec(data),
    {
        match self.w {
            WriteToggle::FirstWrite => {
                self.address.write_u16((data as u16) * 256);
            },
            WriteToggle::SecondWrite => {
                let high = self.address.read_u16() / 256 * 256;
                self.address.write_u16(high + data as u16);
            },
        }
        self.w.toggle();
    }

    pub fn read_data(&mut self) -> (r: u8)
        ensures
            (r, *final(self)) == old(self).read_data_spec(),
    {
        let result = self.data.read_u8();
        let fetched = self.mem_read_u8(self.address.read_u16());
        self.data.write_u8(fetched);
        self.increment_address();
        result
    }

    /// Advances the unit by one dot.
    pub fn tick(&mut self)
        ensures
            *final(self) == (PPU { frame: final(self).frame, ..old(self).tick_spec() }),
            final(self).frame.bytes@ == old(self).tick_frame_spec(),
            old(self).well_formed() ==> final(self).well_formed(),
    {
        if self.cycles >= 1 && self.cycles <= 256 && self.scanline < 240 {
            self.render_pixel(self.cycles - 1, self.scanline);
        } else if self.cycles >= DOTS_PER_SCANLINE && self.scanline == 239 {
            self.render_sprites();
        }
        if self.cycles >= DOTS_PER_SCANLINE {
            self.cycles = self.cycles - DOTS_PER_SCANLINE;
            if self.scanline >= SCANLINES_PER_FRAME - 1 {
                self.scanline = 0;
            } else {
                self.scanline = self.scanline + 1;
                if self.scanline == VBLANK_SCANLINE {
                    self.status.set_v_blank();
                    self.scanline = self.scanline + 1;
                    if self.control.nmi_enable() {
                        self.nmi_triggered = true;
                    }
                }
            }
        }
        self.cycles = self.cycles + 1;
    }

    /// Advances the unit by `n` dots.
    pub fn tick_n(&mut self, n: u8)
        ensures
            *final(self) == (PPU { frame: final(self).frame, ..old(self).after_ticks(n as nat).0 }),
            final(self).frame.bytes@ == old(self).after_ticks(n as nat).1,
    {
        let ghost start = *self;
        let mut i: u8 = 0;
        while i < n
            invariant
                i <= n,
                *self == (PPU { frame: self.frame, ..start.after_ticks(i as nat).0 }),
                self.frame.bytes@ == start.after_ticks(i as nat).1,
            decreases n - i,
        {
            proof {
                let current = PPU { frame: start.frame, ..start.after_ticks(i as nat).0 };
                current.lemma_draw_sprites_ignores_frame(*self, self.frame.bytes@, 64);
            }
            self.tick();
            i = i + 1;
        }
    }

    fn pattern_pixel_of(&self, table: u16, tile: u8, row: u16, col: u16) -> (r: u8)
        requires
            table <= 0x1000,
            row < 8,
            col < 8,
        ensures
            r == self.pattern_pixel(table, tile, row, col),
            r <= 3,
    {
        let address = table + tile as u16 * 16 + row;
        let low_plane = self.mem_read_u8(address);
        let high_plane = self.mem_read_u8(address + 8);
        let shift = (7 - col) as u8;
        let low = (low_plane >> shift) & 1;
        let high = (high_plane >> shift) & 1;
        assert(low <= 1 && high <= 1) by (bit_vector)
            requires
                low == (low_plane >> shift) & 1,
                high == (high_plane >> shift) & 1,
        ;
        high * 2 + low
    }

    fn background_table_of(&self) -> (r: u16)
        ensures
            r == self.background_table(),
    {
        if self.control.value & 0b0001_0000 != 0 {
            0x1000
        } else {
            0
        }
    }

    fn sprite_table_of(&self) -> (r: u16)
        ensures
            r == self.sprite_table(),
    {
        if self.control.value & 0b0000_1000 != 0 {
            0x1000
        } else {
            0
        }
    }

    /// The four colours of the background palette of pixel (`x`, `y`): the
    /// shared backdrop, then the palette's three entries.
    fn background_palette(&self, x: u16, y: u16) -> (r: [u8; 4])
        requires
            x < 256,
            y < 240,
        ensures
            ({
                let p = self.background_palette_spec(x, y) as int;
                r@ == seq![
                    self.palette_ram@[0],
                    self.palette_ram@[p * 4 + 1],
                    self.palette_ram@[p * 4 + 2],
                    self.palette_ram@[p * 4 + 3],
                ]
            }),
    {
        let base = self.control.nametable_base();
        let attribute = self.mem_read_u8(base + 0x3C0 + y / 32 * 8 + x / 32);
        let shift = (y % 32) / 16 * 4 + (x % 32) / 16 * 2;
        let bits = (attribute >> shift as u8) & 0b11;
        assert(bits <= 3) by (bit_vector)
            requires
                bits == (attribute >> shift as u8) & 0b11,
        ;
        let palette = bits as usize;
        [
            self.palette_ram[0],
            self.palette_ram[palette * 4 + 1],
            self.palette_ram[palette * 4 + 2],
            self.palette_ram[palette * 4 + 3],
        ]
    }

    /// Draws background pixel (`x`, `y`).
    fn render_pixel(&mut self, x: u16, y: u16)
        requires
            x < 256,
            y < 240,
        ensures
            final(self).frame.bytes@ == old(self).frame.bytes@.update(
                y * 256 + x,
                old(self).background_pixel(x, y),
            ),
            *final(self) == (PPU { frame: final(self).frame, ..*old(self) }),
    {
        let base = self.control.nametable_base();
        let tile = self.mem_read_u8(base + y / 8 * 32 + x / 8);
        let index = self.pattern_pixel_of(self.background_table_of(), tile, y % 8, x % 8);
        let palette = self.background_palette(x, y);
        let color = palette[index as usize] & 0x3F;
        self.frame.set_pixel(x as usize, y as usize, color);
    }

    /// The four colours of sprite palette `palette_ram_index` (0 to 3); the
    /// first, colour number 0, is transparent and never drawn.
    fn sprite_palette(&self, palette_ram_index: u8) -> (r: [u8; 4])
        requires
            palette_ram_index < 4,
        ensures
            r@ == seq![
                0u8,
                self.palette_ram@[0x11 + palette_ram_index * 4],
                self.palette_ram@[0x12 + palette_ram_index * 4],
                self.palette_ram@[0x13 + palette_ram_index * 4],
            ],
    {
        let start = 0x11 + (palette_ram_index as usize) * 4;
        [0, self.palette_ram[start], self.palette_ram[start + 1], self.palette_ram[start + 2]]
    }

    /// Draws pixel `k` of sprite `i`.
    fn plot_sprite_pixel_of(&mut self, i: usize, k: usize)
        requires
            i < 64,
            k < 64,
        ensures
            final(self).frame.bytes@ == old(self).plot_sprite_pixel(old(self).frame.bytes@, i as int, k as int),
            *final(self) == (PPU { frame: final(self).frame, ..*old(self) }),
    {
        let row = (k / 8) as u16;
        let col = (k % 8) as u16;
        let attribute = self.oam_ram[4 * i + 2];
        let value = self.pattern_pixel_of(self.sprite_table_of(), self.oam_ram[4 * i + 1], row, col);
        let x = self.oam_ram[4 * i + 3] as u16 + if attribute & 0x40 != 0 { 7 - col } else { col };
        let y = self.oam_ram[4 * i] as u16 + if attribute & 0x80 != 0 { 7 - row } else { row };
        if value != 0 && x < 256 && y < 240 {
            assert(attribute & 0b11 < 4) by (bit_vector);
            let palette = self.sprite_palette(attribute & 0b11);
            let color = palette[value as usize] & 0x3F;
            self.frame.set_pixel(x as usize, y as usize, color);
        }
    }

    /// Draws the 64 sprites of sprite memory, the last first, so that
    /// lower-numbered sprites are in front.
    fn render_sprites(&mut self)
        ensures
            final(self).frame.bytes@ == old(self).draw_sprites(old(self).frame.bytes@, 64),
            *final(self) == (PPU { frame: final(self).frame, ..*old(self) }),
    {
        let ghost start = *self;
        let mut n: usize = 0;
        while n < 64
            invariant
                n <= 64,
                *self == (PPU { frame: self.frame, ..start }),
                self.frame.bytes@ == start.draw_sprites(start.frame.bytes@, n as nat),
            decreases 64 - n,
        {
            let i = 63 - n;
            let ghost before = self.frame.bytes@;
            let mut k: usize = 0;
            while k < 64
                invariant
                    k <= 64,
                    i == 63 - n,
                    n < 64,
                    *self == (PPU { frame: self.frame, ..start }),
                    self.frame.bytes@ == start.draw_sprite(before, i as int, k as nat),
                decreases 64 - k,
            {
                self.plot_sprite_pixel_of(i, k);
                k = k + 1;
            }
            n = n + 1;
        }
    }

    fn mem_read_u8(&self, address: u16) -> (r: u8)
        ensures
            r == self.mem_read_spec(address),
    {
        let a = address % 0x4000;
        if a < 0x2000 {
            if (a as usize) < self.chr.len() {
                self.chr[a as usize]
            } else {
                0
            }
        } else if a < 0x3F00 {
            self.vram[(a % 2048) as usize]
        } else {
            self.palette_ram[(a % 32) as usize]
        }
    }

    pub fn write_data(&mut self, data: u8)
        ensures
            *final(self) == old(self).write_data_spec(data),
    {
        self.mem_write_u8(self.address.read_u16(), data);
        self.increment_address();
    }

    /// Copies a page of 256 bytes into sprite memory.
    pub fn dma_write(&mut self, data: &[u8])
        requires
            data@.len() == 256,
        ensures
            final(self).oam_ram@ == data@,
            *final(self) == (PPU { oam_ram: final(self).oam_ram, ..*old(self) }),
    {
        let mut i: usize = 0;
        while i < 256
            invariant
                i <= 256,
                data@.len() == 256,
                forall|j: int| 0 <= j < i ==> self.oam_ram@[j] == data@[j],
                *self == (PPU { oam_ram: self.oam_ram, ..*old(self) }),
            decreases 256 - i,
        {
            self.oam_ram[i] = data[i];
            i = i + 1;
        }
        assert(self.oam_ram@ =~= data@);
    }

    fn mem_write_u8(&mut self, address: u16, data: u8)
        ensures
            *final(self) == old(self).mem_write_spec(address, data),
    {
        let a = address % 0x4000;
        if a < 0x2000 {
            // Pattern memory is read-only.
        } else if a < 0x3F00 {
            self.vram[(a % 2048) as usize] = data;
        } else {
            self.palette_ram[(a % 32) as usize] = data;
        }
    }

    fn increment_address(&mut self)
        ensures
            *final(self) == old(self).increment_address_spec(),
    {
        let next = self.address.read_u16().wrapping_add(self.control.vram_increment());
        self.address.write_u16(next);
    }
}

} // verus!

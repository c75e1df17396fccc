//! The CHIP-8 virtual machine: registers, memory, call stack, keypad state,
//! timers, and the decode/execute engine.

use crate::decode::{decode, lemma_decode_fields, spec_decode, spec_kk, spec_x, spec_y, Opcode};
use crate::display::{all_clear, draw_rows, Display};
use vstd::prelude::*;

verus! {

broadcast use vstd::array::group_array_axioms;

/// The structural failures the machine distinguishes.
///
/// A ROM write past the end of memory and a key index of 16 or more are
/// reported by the `bool` results of [`Cpu::write_bytes`], [`Cpu::press_key`]
/// and [`Cpu::release_key`]; the stack and opcode failures below come out of
/// [`Cpu::execute`] and [`Cpu::tick`]. None of them unwinds machine state:
/// the VM stays inspectable after a failure.
#[derive(Clone, Copy, Debug, PartialEq, Eq, Structural)]
pub enum Chip8Error {
    /// CALL with all 16 stack slots occupied.
    StackOverflow,
    /// RET with an empty call stack.
    StackUnderflow,
    /// The instruction word matched no opcode pattern; the machine state is
    /// untouched, so a host may treat this as a warning or as fatal.
    UnknownOpcode,
}

/// The CHIP-8 machine.
///
/// `stack_pointer` counts the occupied stack slots: a call writes
/// `stack[stack_pointer]` and then increments, so depth 16 is reachable and a
/// return at zero is a clean underflow. `keys` holds bit `k` set iff key `k`
/// is held. When `running` is false the CPU is parked on a key-wait and
/// `key_pause_register_to_set` names the register the next pressed key lands
/// in.
///
/// The two historical opcode ambiguities are exposed as quirk switches, both
/// off by default: with `quirk_shift_vy` the shifts `8xy6`/`8xyE` read `Vy`
/// instead of operating on `Vx` in place, and with `quirk_load_bump_i` the
/// register transfers `Fx55`/`Fx65` advance `I` past the bytes they touched.
pub struct Cpu {
    pub v_reg: [u8; 16],
    pub i_reg: u16,
    pub delay_timer: u8,
    pub sound_timer: u8,
    pub prog_counter: u16,
    pub stack_pointer: u8,
    pub memory: [u8; 4096],
    pub stack: [u16; 16],
    pub keys: u16,
    pub running: bool,
    pub key_pause_register_to_set: u8,
    pub quirk_shift_vy: bool,
    pub quirk_load_bump_i: bool,
    pub display: Display,
}

/// The built-in font: 16 glyphs of 4x5 pixels, 5 bytes each, so that digit
/// `d` lives at address `5 * d`.
pub open spec fn font() -> Seq<u8> {
    seq![
        0xF0u8, 0x90, 0x90, 0x90, 0xF0,  // 0
        0x20, 0x60, 0x20, 0x20, 0x70,  // 1
        0xF0, 0x10, 0xF0, 0x80, 0xF0,  // 2
        0xF0, 0x10, 0xF0, 0x10, 0xF0,  // 3
        0x90, 0x90, 0xF0, 0x10, 0x10,  // 4
        0xF0, 0x80, 0xF0, 0x10, 0xF0,  // 5
        0xF0, 0x80, 0xF0, 0x90, 0xF0,  // 6
        0xF0, 0x10, 0x20, 0x40, 0x40,  // 7
        0xF0, 0x90, 0xF0, 0x90, 0xF0,  // 8
        0xF0, 0x90, 0xF0, 0x10, 0xF0,  // 9
        0xF0, 0x90, 0xF0, 0x90, 0x90,  // A
        0xE0, 0x90, 0xE0, 0x90, 0xE0,  // B
        0xF0, 0x80, 0x80, 0x80, 0xF0,  // C
        0xE0, 0x90, 0x90, 0x90, 0xE0,  // D
        0xF0, 0x80, 0xF0, 0x80, 0xF0,  // E
        0xF0, 0x80, 0xF0, 0x80, 0x80,  // F
    ]
}

/// Key `k` is held in the keypad mask `keys`.
pub open spec fn key_held(keys: u16, k: u8) -> bool
    recommends
        k < 16,
{
    (keys >> (k as u16)) & 1 == 1
}

/// The program counter after a fetch or a skip: two bytes on, wrapped to the
/// 12-bit address space.
pub open spec fn next_pc(pc: u16) -> u16 {
    (((pc + 2) % 0x1000) as u16)
}

impl Cpu {
    /// The machine's internal invariant: the program counter is a 12-bit
    /// address, at most 16 stack slots are occupied, every stored return
    /// address is a 12-bit address, and the key-wait target names one of the
    /// 16 registers.
    pub open spec fn wf(&self) -> bool {
        &&& self.prog_counter <= 0xFFF
        &&& self.stack_pointer <= 16
        &&& self.key_pause_register_to_set < 16
        &&& forall|i: int| 0 <= i < 16 ==> self.stack@[i] <= 0xFFF
    }

    /// Exec check of [`Cpu::wf`], for unverified hosts that assign to the
    /// public fields and then want to re-enter the verified interface.
    pub fn is_well_formed(&self) -> (ok: bool)
        ensures
            ok == self.wf(),
    {
        if self.prog_counter > 0xFFF || self.stack_pointer > 16 || self.key_pause_register_to_set
            >= 16 {
            return false;
        }
        let mut i: usize = 0;
        while i < 16
            invariant
                i <= 16,
                forall|j: int| 0 <= j < i ==> self.stack@[j] <= 0xFFF,
            decreases 16 - i,
        {
            if self.stack[i] > 0xFFF {
                return false;
            }
            i += 1;
        }
        true
    }

    /// A machine with every register, timer, pixel and key cleared, the
    /// program counter at zero, and the font glyphs at addresses
    /// `0x00..0x50`.
    pub fn new() -> (cpu: Cpu)
        ensures
            cpu.wf(),
            forall|i: int| 0 <= i < 16 ==> cpu.v_reg@[i] == 0,
            cpu.i_reg == 0,
            cpu.delay_timer == 0,
            cpu.sound_timer == 0,
            cpu.prog_counter == 0,
            cpu.stack_pointer == 0,
            forall|i: int| 0 <= i < 16 ==> cpu.stack@[i] == 0,
            cpu.keys == 0,
            cpu.running,
            cpu.key_pause_register_to_set == 0,
            !cpu.quirk_shift_vy,
            !cpu.quirk_load_bump_i,
            all_clear(cpu.display.pixels@),
            forall|a: int| 0 <= a < 80 ==> cpu.memory@[a] == font()[a],
            forall|a: int| 80 <= a < 4096 ==> cpu.memory@[a] == 0,
    {
        let mut cpu = Cpu {
            v_reg: [0; 16],
            i_reg: 0,
            delay_timer: 0,
            sound_timer: 0,
            prog_counter: 0,
            stack_pointer: 0,
            memory: [0; 4096],
            stack: [0; 16],
            keys: 0,
            running: true,
            key_pause_register_to_set: 0,
            quirk_shift_vy: false,
            quirk_load_bump_i: false,
            display: Display::new(),
        };
        let font_bytes: [u8; 80] = [
            0xF0, 0x90, 0x90, 0x90, 0xF0,  // 0
            0x20, 0x60, 0x20, 0x20, 0x70,  // 1
            0xF0, 0x10, 0xF0, 0x80, 0xF0,  // 2
            0xF0, 0x10, 0xF0, 0x10, 0xF0,  // 3
            0x90, 0x90, 0xF0, 0x10, 0x10,  // 4
            0xF0, 0x80, 0xF0, 0x10, 0xF0,  // 5
            0xF0, 0x80, 0xF0, 0x90, 0xF0,  // 6
            0xF0, 0x10, 0x20, 0x40, 0x40,  // 7
            0xF0, 0x90, 0xF0, 0x90, 0xF0,  // 8
            0xF0, 0x90, 0xF0, 0x10, 0xF0,  // 9
            0xF0, 0x90, 0xF0, 0x90, 0x90,  // A
            0xE0, 0x90, 0xE0, 0x90, 0xE0,  // B
            0xF0, 0x80, 0x80, 0x80, 0xF0,  // C
            0xE0, 0x90, 0x90, 0x90, 0xE0,  // D
            0xF0, 0x80, 0xF0, 0x80, 0xF0,  // E
            0xF0, 0x80, 0xF0, 0x80, 0x80,  // F
        ];
        let wrote = cpu.write_bytes(0, &font_bytes);
        proof {
            assert(wrote);
            assert forall|a: int| 0 <= a < 80 implies cpu.memory@[a] == font()[a] by {
                assert(cpu.memory@[a] == font_bytes@[a]);
            }
        }
        cpu
    }

    /// Write `bytes` into memory starting at `addr`; reports (and does
    /// nothing on) a write that would run past the end of memory.
    pub fn write_bytes(&mut self, addr: u16, bytes: &[u8]) -> (ok: bool)
        ensures
            ok == (addr + bytes@.len() <= 0x1000),
            !ok ==> *final(self) == *old(self),
            ok ==> *final(self) == (Cpu { memory: final(self).memory, ..*old(self) }),
            ok ==> forall|a: int|
                0 <= a < 4096 ==> final(self).memory@[a] == (if addr <= a < addr + bytes@.len() {
                    bytes@[a - addr]
                } else {
                    old(self).memory@[a]
                }),
    {
        if bytes.len() > 0x1000 {
            return false;
        }
        let base = addr as usize;
        if base > 0x1000 - bytes.len() {
            return false;
        }
        let mut i: usize = 0;
        while i < bytes.len()
            invariant
                base == addr,
                base + bytes@.len() <= 0x1000,
                i <= bytes@.len(),
                *self == (Cpu { memory: self.memory, ..*old(self) }),
                forall|a: int|
                    0 <= a < 4096 ==> self.memory@[a] == (if addr <= a < addr + i {
                        bytes@[a - addr]
                    } else {
                        old(self).memory@[a]
                    }),
            decreases bytes@.len() - i,
        {
            self.memory[base + i] = bytes[i];
            i += 1;
        }
        true
    }

    /// Set key `key` to down. While the CPU is parked on a key-wait, a valid
    /// press also lands the key number in the waited-on register and resumes
    /// execution. Returns false (and does nothing) for a key index of 16 or
    /// more.
    pub fn press_key(&mut self, key: u8) -> (ok: bool)
        requires
            old(self).key_pause_register_to_set < 16,
        ensures
            ok == (key < 16),
            !ok ==> *final(self) == *old(self),
            ok ==> final(self).keys == old(self).keys | (1u16 << (key as u16)),
            ok && old(self).running ==> *final(self) == (Cpu {
                keys: final(self).keys,
                ..*old(self)
            }),
            ok && !old(self).running ==> *final(self) == (Cpu {
                keys: final(self).keys,
                running: true,
                v_reg: final(self).v_reg,
                ..*old(self)
            }),
            ok && !old(self).running ==> final(self).v_reg@ == old(self).v_reg@.update(
                old(self).key_pause_register_to_set as int,
                key,
            ),
    {
        if key > 0xF {
            return false;
        }
        self.keys = self.keys | (1u16 << (key as u16));
        if !self.running {
            let target = self.key_pause_register_to_set as usize;
            self.v_reg[target] = key;
            self.running = true;
        }
        true
    }

    /// Set key `key` to up. A release never resumes a parked CPU. Returns
    /// false (and does nothing) for a key index of 16 or more.
    pub fn release_key(&mut self, key: u8) -> (ok: bool)
        ensures
            ok == (key < 16),
            !ok ==> *final(self) == *old(self),
            ok ==> *final(self) == (Cpu { keys: final(self).keys, ..*old(self) }),
            ok ==> final(self).keys == old(self).keys & !(1u16 << (key as u16)),
    {
        if key > 0xF {
            return false;
        }
        self.keys = self.keys & !(1u16 << (key as u16));
        true
    }

    /// Whether key `key` is currently held.
    pub fn is_down(&self, key: u8) -> (down: bool)
        requires
            key < 16,
        ensures
            down == key_held(self.keys, key),
    {
        (self.keys >> (key as u16)) & 1 == 1
    }

    /// One 60 Hz timer tick: each nonzero timer counts down by one. The host
    /// schedules this at wall-clock rate, independent of the CPU step rate.
    pub fn tick_60hz(&mut self)
        ensures
            *final(self) == (Cpu {
                delay_timer: final(self).delay_timer,
                sound_timer: final(self).sound_timer,
                ..*old(self)
            }),
            final(self).delay_timer == (if old(self).delay_timer > 0 {
                (old(self).delay_timer - 1) as u8
            } else {
                0u8
            }),
            final(self).sound_timer == (if old(self).sound_timer > 0 {
                (old(self).sound_timer - 1) as u8
            } else {
                0u8
            }),
    {
        if self.delay_timer > 0 {
            self.delay_timer = self.delay_timer - 1;
        }
        if self.sound_timer > 0 {
            self.sound_timer = self.sound_timer - 1;
        }
    }

    /// The beep flag: the sound timer is still counting down.
    pub fn sound_active(&self) -> (active: bool)
        ensures
            active == (self.sound_timer > 0),
    {
        self.sound_timer > 0
    }

    /// Point the program counter at `addr` (conventionally 0x200 after a ROM
    /// load).
    pub fn set_pc(&mut self, addr: u16)
        requires
            addr <= 0xFFF,
        ensures
            *final(self) == (Cpu { prog_counter: addr, ..*old(self) }),
    {
        self.prog_counter = addr;
    }

    /// Read access to the framebuffer.
    pub fn framebuffer(&self) -> (fb: &Display)
        ensures
            fb.pixels@ == self.display.pixels@,
    {
        &self.display
    }

    /// Execute the two-byte instruction `instruction` on the current state.
    ///
    /// The program counter is expected to point past the instruction (the
    /// fetch in [`Cpu::tick`] advances it first), so jumps, calls and skips
    /// overwrite it freely. Stack faults and unmatched words are reported
    /// without touching any state.
    pub fn execute(&mut self, instruction: u16) -> (r: Result<(), Chip8Error>)
        requires
            old(self).wf(),
        ensures
            final(self).wf(),
            execute_rel(*old(self), *final(self), instruction, r),
    {
        proof {
            lemma_decode_fields(instruction);
        }
        match decode(instruction) {
            Opcode::Cls => {
                self.display.clear();
                Ok(())
            },
            Opcode::Ret => {
                if self.stack_pointer == 0 {
                    return Err(Chip8Error::StackUnderflow);
                }
                self.stack_pointer = self.stack_pointer - 1;
                self.prog_counter = self.stack[self.stack_pointer as usize];
                Ok(())
            },
            Opcode::Jp { nnn } => {
                self.prog_counter = nnn;
                Ok(())
            },
            Opcode::Call { nnn } => {
                if self.stack_pointer >= 16 {
                    return Err(Chip8Error::StackOverflow);
                }
                self.stack[self.stack_pointer as usize] = self.prog_counter;
                self.stack_pointer = self.stack_pointer + 1;
                self.prog_counter = nnn;
                Ok(())
            },
            Opcode::SeImm { x, kk } => {
                if self.v_reg[x as usize] == kk {
                    self.prog_counter = (self.prog_counter + 2) % 0x1000;
                }
                Ok(())
            },
            Opcode::SneImm { x, kk } => {
                if self.v_reg[x as usize] != kk {
                    self.prog_counter = (self.prog_counter + 2) % 0x1000;
                }
                Ok(())
            },
            Opcode::SeReg { x, y } => {
                if self.v_reg[x as usize] == self.v_reg[y as usize] {
                    self.prog_counter = (self.prog_counter + 2) % 0x1000;
                }
                Ok(())
            },
            Opcode::LdImm { x, kk } => {
                self.v_reg[x as usize] = kk;
                Ok(())
            },
            Opcode::AddImm { x, kk } => {
                let vx = self.v_reg[x as usize];
                self.v_reg[x as usize] = ((vx as u16 + kk as u16) % 256) as u8;
                Ok(())
            },
            Opcode::LdReg { x, y } => {
                self.v_reg[x as usize] = self.v_reg[y as usize];
                Ok(())
            },
            Opcode::Or { x, y } => {
                self.v_reg[x as usize] = self.v_reg[x as usize] | self.v_reg[y as usize];
                Ok(())
            },
            Opcode::And { x, y } => {
                self.v_reg[x as usize] = self.v_reg[x as usize] & self.v_reg[y as usize];
                Ok(())
            },
            Opcode::Xor { x, y } => {
                self.v_reg[x as usize] = self.v_reg[x as usize] ^ self.v_reg[y as usize];
                Ok(())
            },
            Opcode::AddReg { x, y } => {
                let sum: u16 = self.v_reg[x as usize] as u16 + self.v_reg[y as usize] as u16;
                self.v_reg[x as usize] = (sum % 256) as u8;
                self.v_reg[15] = if sum >= 256 {
                    1
                } else {
                    0
                };
                Ok(())
            },
            Opcode::Sub { x, y } => {
                let vx = self.v_reg[x as usize];
                let vy = self.v_reg[y as usize];
                self.v_reg[x as usize] = if vx >= vy {
                    vx - vy
                } else {
                    ((vx as u16 + 256 - vy as u16) % 256) as u8
                };
                self.v_reg[15] = if vx >= vy {
                    1
                } else {
                    0
                };
                Ok(())
            },
            Opcode::Shr { x, y } => {
                let src = if self.quirk_shift_vy {
                    self.v_reg[y as usize]
                } else {
                    self.v_reg[x as usize]
                };
                self.v_reg[x as usize] = src / 2;
                self.v_reg[15] = src % 2;
                Ok(())
            },
            Opcode::Subn { x, y } => {
                let vx = self.v_reg[x as usize];
                let vy = self.v_reg[y as usize];
                self.v_reg[x as usize] = if vy >= vx {
                    vy - vx
                } else {
                    ((vy as u16 + 256 - vx as u16) % 256) as u8
                };
                self.v_reg[15] = if vy >= vx {
                    1
                } else {
                    0
                };
                Ok(())
            },
            Opcode::Shl { x, y } => {
                let src = if self.quirk_shift_vy {
                    self.v_reg[y as usize]
                } else {
                    self.v_reg[x as usize]
                };
                self.v_reg[x as usize] = ((src as u16 * 2) % 256) as u8;
                self.v_reg[15] = src / 128;
                Ok(())
            },
            Opcode::SneReg { x, y } => {
                if self.v_reg[x as usize] != self.v_reg[y as usize] {
                    self.prog_counter = (self.prog_counter + 2) % 0x1000;
                }
                Ok(())
            },
            Opcode::LdI { nnn } => {
                self.i_reg = nnn;
                Ok(())
            },
            Opcode::JpV0 { nnn } => {
                self.prog_counter = (nnn + self.v_reg[0] as u16) % 0x1000;
                Ok(())
            },
            Opcode::Rnd { x, kk } => {
                let byte: u8 = rand::random::<u8>();
                let masked: u8 = byte & kk;
                proof {
                    assert((byte & kk) & kk == byte & kk) by (bit_vector);
                }
                self.v_reg[x as usize] = masked;
                Ok(())
            },
            Opcode::Drw { x, y, n } => {
                let vx = self.v_reg[x as usize];
                let vy = self.v_reg[y as usize];
                let base = self.i_reg as usize;
                let count = n as usize;
                let mut rows: Vec<u8> = Vec::new();
                let mut j: usize = 0;
                while j < count
                    invariant
                        j <= count,
                        count < 16,
                        base == old(self).i_reg,
                        *self == *old(self),
                        rows@.len() == j,
                        forall|t: int|
                            0 <= t < j ==> rows@[t] == old(self).memory@[
                                (old(self).i_reg + t) % 4096
                            ],
                    decreases count - j,
                {
                    rows.push(self.memory[(base + j) % 4096]);
                    j += 1;
                }
                proof {
                    assert(rows@ =~= sprite_rows(old(self).memory@, old(self).i_reg as int,
                    n as int));
                }
                let collision = self.display.blit(vx, vy, rows.as_slice());
                self.v_reg[15] = if collision {
                    1
                } else {
                    0
                };
                Ok(())
            },
            Opcode::Skp { x } => {
                let key = self.v_reg[x as usize] % 16;
                if self.is_down(key) {
                    self.prog_counter = (self.prog_counter + 2) % 0x1000;
                }
                Ok(())
            },
            Opcode::Sknp { x } => {
                let key = self.v_reg[x as usize] % 16;
                if !self.is_down(key) {
                    self.prog_counter = (self.prog_counter + 2) % 0x1000;
                }
                Ok(())
            },
            Opcode::LdFromDt { x } => {
                self.v_reg[x as usize] = self.delay_timer;
                Ok(())
            },
            Opcode::WaitKey { x } => {
                self.key_pause_register_to_set = x;
                self.running = false;
                Ok(())
            },
            Opcode::LdDt { x } => {
                self.delay_timer = self.v_reg[x as usize];
                Ok(())
            },
            Opcode::LdSt { x } => {
                self.sound_timer = self.v_reg[x as usize];
                Ok(())
            },
            Opcode::AddI { x } => {
                let vx = self.v_reg[x as usize];
                self.i_reg = ((self.i_reg as u32 + vx as u32) % 0x10000) as u16;
                Ok(())
            },
            Opcode::LdFont { x } => {
                let vx = self.v_reg[x as usize];
                self.i_reg = (vx % 16) as u16 * 5;
                Ok(())
            },
            Opcode::Bcd { x } => {
                let vx = self.v_reg[x as usize];
                let base = self.i_reg as usize;
                self.memory[base % 4096] = vx / 100;
                self.memory[(base + 1) % 4096] = (vx / 10) % 10;
                self.memory[(base + 2) % 4096] = vx % 10;
                Ok(())
            },
            Opcode::StoreRegs { x } => {
                let base = self.i_reg as usize;
                let mut j: usize = 0;
                while j <= x as usize
                    invariant
                        x < 16,
                        j <= x + 1,
                        base == old(self).i_reg,
                        *self == (Cpu { memory: self.memory, ..*old(self) }),
                        self.memory@ == store_regs(
                            old(self).memory@,
                            old(self).v_reg@,
                            old(self).i_reg as int,
                            j as int,
                        ),
                    decreases x + 1 - j,
                {
                    self.memory[(base + j) % 4096] = self.v_reg[j];
                    j += 1;
                }
                if self.quirk_load_bump_i {
                    self.i_reg = ((self.i_reg as u32 + x as u32 + 1) % 0x10000) as u16;
                }
                Ok(())
            },
            Opcode::LoadRegs { x } => {
                let base = self.i_reg as usize;
                let mut j: usize = 0;
                while j <= x as usize
                    invariant
                        x < 16,
                        j <= x + 1,
                        base == old(self).i_reg,
                        *self == (Cpu { v_reg: self.v_reg, ..*old(self) }),
                        self.v_reg@ == load_regs(
                            old(self).v_reg@,
                            old(self).memory@,
                            old(self).i_reg as int,
                            j as int,
                        ),
                    decreases x + 1 - j,
                {
                    self.v_reg[j] = self.memory[(base + j) % 4096];
                    j += 1;
                }
                if self.quirk_load_bump_i {
                    self.i_reg = ((self.i_reg as u32 + x as u32 + 1) % 0x10000) as u16;
                }
                Ok(())
            },
            Opcode::Unknown => Err(Chip8Error::UnknownOpcode),
        }
    }

    /// One machine step: if the CPU is parked on a key-wait this is a no-op;
    /// otherwise fetch the big-endian instruction word under the program
    /// counter, advance the counter past it, and execute it.
    pub fn tick(&mut self) -> (r: Result<(), Chip8Error>)
        requires
            old(self).wf(),
        ensures
            final(self).wf(),
            tick_rel(*old(self), *final(self), r),
    {
        if !self.running {
            return Ok(());
        }
        let pc = self.prog_counter as usize;
        let hi = self.memory[pc];
        let lo = self.memory[(pc + 1) % 4096];
        let instruction: u16 = (hi as u16) * 256 + (lo as u16);
        self.prog_counter = (self.prog_counter + 2) % 0x1000;
        self.execute(instruction)
    }
}

/// The big-endian instruction word under the program counter, the second
/// byte wrapping at the 4 KiB boundary.
pub open spec fn spec_fetch(c: Cpu) -> u16 {
    ((c.memory@[c.prog_counter as int] * 256 + c.memory@[(c.prog_counter + 1) % 4096]) as u16)
}

/// How one call of [`Cpu::tick`] relates the machine state before and after:
/// a parked CPU does nothing, a running one fetches the word under the
/// program counter, advances the counter past it, and executes it.
pub open spec fn tick_rel(pre: Cpu, post: Cpu, r: Result<(), Chip8Error>) -> bool {
    if !pre.running {
        post == pre && r is Ok
    } else {
        execute_rel(
            Cpu { prog_counter: next_pc(pre.prog_counter), ..pre },
            post,
            spec_fetch(pre),
            r,
        )
    }
}

/// Relies on rand 0.8's `rand::random`: a value drawn from the thread-local
/// generator. Nothing is assumed of the result; callers state what holds of
/// every outcome.
pub assume_specification<T>[ rand::random::<T> ]() -> (r: T)
    where
        rand::distributions::Standard: rand::distributions::Distribution<T>,
;

/// The memory image after the registers `v[0..k]` are stored at `base`,
/// address arithmetic wrapping at the 4 KiB boundary.
pub open spec fn store_regs(mem: Seq<u8>, v: Seq<u8>, base: int, k: int) -> Seq<u8>
    recommends
        mem.len() == 4096,
        v.len() == 16,
        0 <= base < 0x10000,
        0 <= k <= 16,
    decreases k,
{
    if k <= 0 {
        mem
    } else {
        store_regs(mem, v, base, k - 1).update((base + (k - 1)) % 4096, v[k - 1])
    }
}

/// The register file after `v[0..k]` are read back out of memory at `base`,
/// address arithmetic wrapping at the 4 KiB boundary.
pub open spec fn load_regs(v: Seq<u8>, mem: Seq<u8>, base: int, k: int) -> Seq<u8>
    recommends
        mem.len() == 4096,
        v.len() == 16,
        0 <= base < 0x10000,
        0 <= k <= 16,
    decreases k,
{
    if k <= 0 {
        v
    } else {
        load_regs(v, mem, base, k - 1).update(k - 1, mem[(base + (k - 1)) % 4096])
    }
}

/// The `n` sprite rows starting at memory address `base`, wrapping at the
/// 4 KiB boundary.
pub open spec fn sprite_rows(mem: Seq<u8>, base: int, n: int) -> Seq<u8>
    recommends
        mem.len() == 4096,
        0 <= base < 0x10000,
        0 <= n,
{
    Seq::new(n as nat, |j: int| mem[(base + j) % 4096])
}

/// The address register after a register transfer touching `x + 1` bytes:
/// advanced past them under the load quirk, untouched otherwise.
pub open spec fn bumped_i(pre: Cpu, x: int) -> u16 {
    if pre.quirk_load_bump_i {
        (((pre.i_reg + x + 1) % 0x10000) as u16)
    } else {
        pre.i_reg
    }
}

/// How one call of [`Cpu::execute`] relates the machine state before (`pre`)
/// and after (`post`): the per-opcode semantics of the whole instruction
/// set, including the result `r` that reports stack faults and unmatched
/// words. The program counter is assumed to have been advanced past the
/// instruction by the fetch, so jumps and skips overwrite it freely.
pub open spec fn execute_rel(pre: Cpu, post: Cpu, w: u16, r: Result<(), Chip8Error>) -> bool {
    let x = spec_x(w) as int;
    let kk = spec_kk(w);
    let vx = pre.v_reg@[spec_x(w) as int];
    let vy = pre.v_reg@[spec_y(w) as int];
    match spec_decode(w) {
        Opcode::Cls => r is Ok && post == (Cpu { display: post.display, ..pre }) && all_clear(
            post.display.pixels@,
        ),
        Opcode::Ret => if pre.stack_pointer == 0 {
            post == pre && r == Err::<(), Chip8Error>(Chip8Error::StackUnderflow)
        } else {
            r is Ok && post == (Cpu {
                prog_counter: pre.stack@[pre.stack_pointer - 1],
                stack_pointer: (pre.stack_pointer - 1) as u8,
                ..pre
            })
        },
        Opcode::Jp { nnn } => r is Ok && post == (Cpu { prog_counter: nnn, ..pre }),
        Opcode::Call { nnn } => if pre.stack_pointer >= 16 {
            post == pre && r == Err::<(), Chip8Error>(Chip8Error::StackOverflow)
        } else {
            r is Ok && post == (Cpu {
                prog_counter: nnn,
                stack_pointer: (pre.stack_pointer + 1) as u8,
                stack: post.stack,
                ..pre
            }) && post.stack@ == pre.stack@.update(pre.stack_pointer as int, pre.prog_counter)
        },
        Opcode::SeImm { .. } => r is Ok && post == (Cpu {
            prog_counter: if vx == kk {
                next_pc(pre.prog_counter)
            } else {
                pre.prog_counter
            },
            ..pre
        }),
        Opcode::SneImm { .. } => r is Ok && post == (Cpu {
            prog_counter: if vx != kk {
                next_pc(pre.prog_counter)
            } else {
                pre.prog_counter
            },
            ..pre
        }),
        Opcode::SeReg { .. } => r is Ok && post == (Cpu {
            prog_counter: if vx == vy {
                next_pc(pre.prog_counter)
            } else {
                pre.prog_counter
            },
            ..pre
        }),
        Opcode::LdImm { .. } => r is Ok && post == (Cpu { v_reg: post.v_reg, ..pre })
            && post.v_reg@ == pre.v_reg@.update(x, kk),
        Opcode::AddImm { .. } => r is Ok && post == (Cpu { v_reg: post.v_reg, ..pre })
            && post.v_reg@ == pre.v_reg@.update(x, (((vx + kk) % 256) as u8)),
        Opcode::LdReg { .. } => r is Ok && post == (Cpu { v_reg: post.v_reg, ..pre })
            && post.v_reg@ == pre.v_reg@.update(x, vy),
        Opcode::Or { .. } => r is Ok && post == (Cpu { v_reg: post.v_reg, ..pre }) && post.v_reg@
            == pre.v_reg@.update(x, vx | vy),
        Opcode::And { .. } => r is Ok && post == (Cpu { v_reg: post.v_reg, ..pre }) && post.v_reg@
            == pre.v_reg@.update(x, vx & vy),
        Opcode::Xor { .. } => r is Ok && post == (Cpu { v_reg: post.v_reg, ..pre }) && post.v_reg@
            == pre.v_reg@.update(x, vx ^ vy),
        Opcode::AddReg { .. } => r is Ok && post == (Cpu { v_reg: post.v_reg, ..pre })
            && post.v_reg@ == pre.v_reg@.update(x, (((vx + vy) % 256) as u8)).update(
            15,
            if vx + vy >= 256 {
                1u8
            } else {
                0u8
            },
        ),
        Opcode::Sub { .. } => r is Ok && post == (Cpu { v_reg: post.v_reg, ..pre }) && post.v_reg@
            == pre.v_reg@.update(
            x,
            if vx >= vy {
                (vx - vy) as u8
            } else {
                (vx - vy + 256) as u8
            },
        ).update(
            15,
            if vx >= vy {
                1u8
            } else {
                0u8
            },
        ),
        Opcode::Shr { .. } => {
            let src = if pre.quirk_shift_vy {
                vy
            } else {
                vx
            };
            r is Ok && post == (Cpu { v_reg: post.v_reg, ..pre }) && post.v_reg@
                == pre.v_reg@.update(x, src / 2).update(15, src % 2)
        },
        Opcode::Subn { .. } => r is Ok && post == (Cpu { v_reg: post.v_reg, ..pre }) && post.v_reg@
            == pre.v_reg@.update(
            x,
            if vy >= vx {
                (vy - vx) as u8
            } else {
                (vy - vx + 256) as u8
            },
        ).update(
            15,
            if vy >= vx {
                1u8
            } else {
                0u8
            },
        ),
        Opcode::Shl { .. } => {
            let src = if pre.quirk_shift_vy {
                vy
            } else {
                vx
            };
            r is Ok && post == (Cpu { v_reg: post.v_reg, ..pre }) && post.v_reg@
                == pre.v_reg@.update(x, ((src * 2) % 256) as u8).update(15, src / 128)
        },
        Opcode::SneReg { .. } => r is Ok && post == (Cpu {
            prog_counter: if vx != vy {
                next_pc(pre.prog_counter)
            } else {
                pre.prog_counter
            },
            ..pre
        }),
        Opcode::LdI { nnn } => r is Ok && post == (Cpu { i_reg: nnn, ..pre }),
        Opcode::JpV0 { nnn } => r is Ok && post == (Cpu {
            prog_counter: (((nnn + pre.v_reg@[0]) % 0x1000) as u16),
            ..pre
        }),
        Opcode::Rnd { .. } => r is Ok && post == (Cpu { v_reg: post.v_reg, ..pre }) && post.v_reg@
            == pre.v_reg@.update(x, post.v_reg@[x]) && post.v_reg@[x] & kk == post.v_reg@[x],
        Opcode::Drw { n, .. } => {
            let sprite = sprite_rows(pre.memory@, pre.i_reg as int, n as int);
            let drawn = draw_rows(
                pre.display.pixels@,
                sprite,
                (vx % 64) as u8,
                (vy % 32) as u8,
                n as int,
            );
            r is Ok && post == (Cpu { v_reg: post.v_reg, display: post.display, ..pre })
                && post.display.pixels@ == drawn.0 && post.v_reg@ == pre.v_reg@.update(
                15,
                if drawn.1 {
                    1u8
                } else {
                    0u8
                },
            )
        },
        Opcode::Skp { .. } => r is Ok && post == (Cpu {
            prog_counter: if key_held(pre.keys, (vx % 16) as u8) {
                next_pc(pre.prog_counter)
            } else {
                pre.prog_counter
            },
            ..pre
        }),
        Opcode::Sknp { .. } => r is Ok && post == (Cpu {
            prog_counter: if !key_held(pre.keys, (vx % 16) as u8) {
                next_pc(pre.prog_counter)
            } else {
                pre.prog_counter
            },
            ..pre
        }),
        Opcode::LdFromDt { .. } => r is Ok && post == (Cpu { v_reg: post.v_reg, ..pre })
            && post.v_reg@ == pre.v_reg@.update(x, pre.delay_timer),
        Opcode::WaitKey { .. } => r is Ok && post == (Cpu {
            running: false,
            key_pause_register_to_set: spec_x(w),
            ..pre
        }),
        Opcode::LdDt { .. } => r is Ok && post == (Cpu { delay_timer: vx, ..pre }),
        Opcode::LdSt { .. } => r is Ok && post == (Cpu { sound_timer: vx, ..pre }),
        Opcode::AddI { .. } => r is Ok && post == (Cpu {
            i_reg: (((pre.i_reg + vx) % 0x10000) as u16),
            ..pre
        }),
        Opcode::LdFont { .. } => r is Ok && post == (Cpu {
            i_reg: (((vx % 16) * 5) as u16),
            ..pre
        }),
        Opcode::Bcd { .. } => r is Ok && post == (Cpu { memory: post.memory, ..pre })
            && post.memory@ == pre.memory@.update((pre.i_reg as int) % 4096, vx / 100).update(
            (pre.i_reg + 1) % 4096,
            (vx / 10) % 10,
        ).update((pre.i_reg + 2) % 4096, vx % 10),
        Opcode::StoreRegs { .. } => r is Ok && post == (Cpu {
            memory: post.memory,
            i_reg: bumped_i(pre, x),
            ..pre
        }) && post.memory@ == store_regs(pre.memory@, pre.v_reg@, pre.i_reg as int, x + 1),
        Opcode::LoadRegs { .. } => r is Ok && post == (Cpu {
            v_reg: post.v_reg,
            i_reg: bumped_i(pre, x),
            ..pre
        }) && post.v_reg@ == load_regs(pre.v_reg@, pre.memory@, pre.i_reg as int, x + 1),
        Opcode::Unknown => post == pre && r == Err::<(), Chip8Error>(Chip8Error::UnknownOpcode),
    }
}

} // verus!

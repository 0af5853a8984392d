//! The sample framework of the Direct3D 12 programs: the command line,
//! the window title, the choice of an adapter, the layout of descriptor
//! heaps and constant buffers, and the fence that paces the frames.

use vstd::prelude::*;
use vstd::string::*;

verus! {

/// `DXGI_ADAPTER_FLAG_SOFTWARE`.
pub const DXGI_ADAPTER_FLAG_SOFTWARE: u32 = 2;

/// The number of back buffers.
pub const FRAME_COUNT: u32 = 2;

/// The alignment that Direct3D 12 asks of a constant buffer's size.
pub const CONSTANT_BUFFER_ALIGNMENT: usize = 256;

/// What the command line asks for.
#[derive(Clone, Copy, Debug, PartialEq, Eq, Structural)]
pub struct SampleCommandLine {
    /// Render with the software rasteriser instead of a hardware adapter.
    pub use_warp_device: bool,
}

/// `c` is the lower-case letter `letter` or its upper-case form.
pub open spec fn is_letter(c: char, letter: char) -> bool {
    c == letter || (c as int) + 32 == (letter as int)
}

/// `arg` is `-warp` or `/warp`, in any mixture of upper and lower case.
pub open spec fn is_warp_flag(arg: Seq<char>) -> bool {
    &&& arg.len() == 5
    &&& arg[0] == '-' || arg[0] == '/'
    &&& is_letter(arg[1], 'w')
    &&& is_letter(arg[2], 'a')
    &&& is_letter(arg[3], 'r')
    &&& is_letter(arg[4], 'p')
}

/// Whether an argument asks for the software rasteriser.
pub fn is_warp_argument(arg: &str) -> (warp: bool)
    ensures
        warp == is_warp_flag(arg@),
{
    if arg.unicode_len() != 5 {
        return false;
    }
    let c0 = arg.get_char(0);
    let c1 = arg.get_char(1);
    let c2 = arg.get_char(2);
    let c3 = arg.get_char(3);
    let c4 = arg.get_char(4);
    (c0 == '-' || c0 == '/') && (c1 == 'w' || c1 == 'W') && (c2 == 'a' || c2 == 'A') && (c3 == 'r'
        || c3 == 'R') && (c4 == 'p' || c4 == 'P')
}

/// Reads the program's arguments: the software rasteriser is used where
/// any of them asks for it.
pub fn build_command_line(args: &[String]) -> (command_line: SampleCommandLine)
    ensures
        command_line.use_warp_device == exists|i: int|
            0 <= i < args@.len() && is_warp_flag((#[trigger] args@[i])@),
{
    let mut use_warp_device = false;
    let mut i: usize = 0;
    while i < args.len()
        invariant
            i <= args@.len(),
            use_warp_device == exists|j: int| 0 <= j < i && is_warp_flag((#[trigger] args@[j])@),
        decreases args@.len() - i,
    {
        if is_warp_argument(args[i].as_str()) {
            use_warp_device = true;
        }
        i += 1;
    }
    SampleCommandLine { use_warp_device }
}

/// The text of a window's title bar as the system takes it: the sample's
/// title, a note where the software rasteriser is in use, and the
/// terminating zero.
pub open spec fn title_text(title: Seq<char>, use_warp_device: bool) -> Seq<char> {
    let note = if use_warp_device {
        seq![' ', '(', 'W', 'A', 'R', 'P', ')']
    } else {
        Seq::<char>::empty()
    };
    title + note + seq!['\0']
}

/// Builds the title of the sample's window.
pub fn window_title(title: String, command_line: &SampleCommandLine) -> (text: String)
    ensures
        text@ == title_text(title@, command_line.use_warp_device),
{
    let mut text = title;
    if command_line.use_warp_device {
        proof {
            reveal_strlit(" (WARP)");
        }
        text.append(" (WARP)");
        assert(" (WARP)"@ =~= seq![' ', '(', 'W', 'A', 'R', 'P', ')']);
    }
    proof {
        reveal_strlit("\0");
    }
    text.append("\0");
    assert("\0"@ =~= seq!['\0']);
    assert(text@ =~= title_text(title@, command_line.use_warp_device));
    text
}

/// What a program finds out about a display adapter.
#[derive(Clone, Copy, Debug, PartialEq, Eq, Structural)]
pub struct AdapterInfo {
    /// The adapter's flags.
    pub flags: u32,
    /// Whether a Direct3D 12 device can be created on the adapter.
    pub supports_direct3d12: bool,
}

impl AdapterInfo {
    /// The adapter is a software adapter.
    pub open spec fn software(&self) -> bool {
        self.flags & DXGI_ADAPTER_FLAG_SOFTWARE != 0
    }

    /// The adapter is hardware on which Direct3D 12 runs.
    pub open spec fn usable(&self) -> bool {
        !self.software() && self.supports_direct3d12
    }
}

/// Whether flags of an adapter mark it as a software adapter.
pub fn is_software_adapter(flags: u32) -> (software: bool)
    ensures
        software == (flags & DXGI_ADAPTER_FLAG_SOFTWARE != 0),
{
    (flags & DXGI_ADAPTER_FLAG_SOFTWARE) != 0
}

/// The first adapter, in the order in which the system lists them, that
/// is no software adapter and on which Direct3D 12 runs.
pub fn get_hardware_adapter(adapters: &[AdapterInfo]) -> (choice: Option<usize>)
    ensures
        match choice {
            Some(i) => {
                &&& i < adapters@.len()
                &&& adapters@[i as int].usable()
                &&& forall|j: int| 0 <= j < i ==> !(#[trigger] adapters@[j]).usable()
            },
            None => forall|j: int| 0 <= j < adapters@.len() ==> !(#[trigger] adapters@[j]).usable(),
        },
{
    let mut i: usize = 0;
    while i < adapters.len()
        invariant
            i <= adapters@.len(),
            forall|j: int| 0 <= j < i ==> !(#[trigger] adapters@[j]).usable(),
        decreases adapters@.len() - i,
    {
        let adapter = &adapters[i];
        if !is_software_adapter(adapter.flags) && adapter.supports_direct3d12 {
            return Some(i);
        }
        i += 1;
    }
    None
}

/// The size of a constant buffer that holds `size` bytes: the least
/// multiple of the alignment that is not below `size`.
pub fn constant_buffer_size(size: usize) -> (aligned: usize)
    requires
        size + CONSTANT_BUFFER_ALIGNMENT - 1 <= usize::MAX,
    ensures
        aligned % CONSTANT_BUFFER_ALIGNMENT == 0,
        size <= aligned < size + CONSTANT_BUFFER_ALIGNMENT,
{
    let sum: usize = size + 255;
    let aligned: usize = sum & !255;
    assert((sum & !255usize) % 256 == 0 && sum & !255usize <= sum && sum - (sum & !255usize) < 256)
        by (bit_vector);
    aligned
}

/// The descriptors of the harmonograph's shader-visible heap, in the
/// order in which they lie in it.
#[derive(Clone, Copy, Debug, PartialEq, Eq, Structural)]
pub enum HeapSlot {
    /// The constant buffer with the curve's parameters.
    Constants,
    /// The positions, as the compute shader writes them.
    PositionWrite,
    /// The colours, as the compute shader writes them.
    ColorWrite,
    /// The positions, as the vertex shader reads them.
    PositionRead,
    /// The colours, as the vertex shader reads them.
    ColorRead,
}

impl HeapSlot {
    /// The slot's place in the heap.
    pub open spec fn place(&self) -> int {
        match self {
            HeapSlot::Constants => 0,
            HeapSlot::PositionWrite => 1,
            HeapSlot::ColorWrite => 2,
            HeapSlot::PositionRead => 3,
            HeapSlot::ColorRead => 4,
        }
    }

    /// The slot's place in the heap.
    pub fn index(&self) -> (index: u32)
        ensures
            index == self.place(),
    {
        match self {
            HeapSlot::Constants => 0,
            HeapSlot::PositionWrite => 1,
            HeapSlot::ColorWrite => 2,
            HeapSlot::PositionRead => 3,
            HeapSlot::ColorRead => 4,
        }
    }
}

/// The number of descriptors in the harmonograph's heap.
pub const HEAP_SLOTS: u32 = 5;

/// The address, as the processor sees it, of descriptor `index` in a heap
/// that starts at `start` and whose descriptors are `increment` bytes
/// apart.
pub fn cpu_descriptor_handle(start: usize, index: u32, increment: u32) -> (handle: usize)
    requires
        start + index * increment <= usize::MAX,
    ensures
        handle == start + index * increment,
{
    assert(index * increment <= usize::MAX) by (nonlinear_arith)
        requires
            start + index * increment <= usize::MAX,
            start >= 0,
    ;
    start + (index as usize) * (increment as usize)
}

/// The address, as the graphics processor sees it, of descriptor `index`
/// in a heap that starts at `start` and whose descriptors are `increment`
/// bytes apart.
pub fn gpu_descriptor_handle(start: u64, index: u32, increment: u32) -> (handle: u64)
    requires
        start + index * increment <= u64::MAX,
    ensures
        handle == start + index * increment,
{
    assert(index * increment <= u64::MAX) by (nonlinear_arith)
        requires
            start + index * increment <= u64::MAX,
            start >= 0,
    ;
    start + (index as u64) * (increment as u64)
}

/// The values a fence goes through, one for each time the host waits for
/// the device.
#[derive(Clone, Copy, Debug, PartialEq, Eq, Structural)]
pub struct FenceClock {
    /// The value the command queue signals next.
    pub fence_value: u64,
}

impl FenceClock {
    /// Takes the value for the command queue to signal now, and moves the
    /// clock on by one.
    pub fn advance(&mut self) -> (signal: u64)
        requires
            old(self).fence_value < u64::MAX,
        ensures
            signal == old(self).fence_value,
            final(self).fence_value == old(self).fence_value + 1,
    {
        let signal: u64 = self.fence_value;
        self.fence_value = self.fence_value + 1;
        signal
    }
}

/// Whether the host has to wait: the device has not yet come to the
/// value that was signalled.
pub fn must_wait(completed: u64, signal: u64) -> (wait: bool)
    ensures
        wait == (completed < signal),
{
    completed < signal
}

} // verus!

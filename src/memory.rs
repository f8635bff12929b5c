//! A process image held in memory: a `Process` whose regions and contents
//! are set by its owner, for driving the engine without a live process.
use vstd::prelude::*;

use crate::{MemoryRegion, Process, ReadError};

verus! {

/// `s` with the bytes from `at` on replaced by `d`.
pub open spec fn splice(s: Seq<u8>, at: int, d: Seq<u8>) -> Seq<u8> {
    s.subrange(0, at) + d + s.subrange(at + d.len(), s.len() as int)
}

/// Regions of memory with their contents, each readable or not.
pub struct MemoryImage {
    regions: Vec<MemoryRegion>,
    memory: Vec<Vec<u8>>,
    readable: Vec<bool>,
}

/// What a memory image is made of, for contracts.
pub struct ImageView {
    pub regions: Seq<MemoryRegion>,
    pub memory: Seq<Seq<u8>>,
    pub readable: Seq<bool>,
}

/// Region `i` of the image holds `[address, address + n)`.
pub open spec fn covers(v: ImageView, i: int, address: int, n: int) -> bool {
    &&& 0 <= i < v.regions.len()
    &&& v.regions[i].base_address <= address
    &&& address + n <= v.regions[i].base_address + v.memory[i].len()
}

/// The image's parts agree in length.
pub open spec fn image_shape(v: ImageView) -> bool {
    &&& v.memory.len() == v.regions.len()
    &&& v.readable.len() == v.regions.len()
}

/// The image's parts agree in length and each region's size is its length.
pub open spec fn image_wf(v: ImageView) -> bool {
    &&& image_shape(v)
    &&& forall|i: int| 0 <= i < v.regions.len() ==> (#[trigger] v.regions[i]).size == v.memory[i].len()
}

impl View for MemoryImage {
    type V = ImageView;

    closed spec fn view(&self) -> ImageView {
        ImageView {
            regions: self.regions@,
            memory: self.memory@.map_values(|m: Vec<u8>| m@),
            readable: self.readable@,
        }
    }
}

impl MemoryImage {
    /// An image without regions.
    pub fn new() -> (r: Self)
        ensures
            r@.regions.len() == 0,
            image_wf(r@),
    {
        MemoryImage { regions: Vec::new(), memory: Vec::new(), readable: Vec::new() }
    }

    /// Adds a readable region at `base` holding `bytes`.
    pub fn add_region(&mut self, base: usize, bytes: Vec<u8>)
        requires
            image_wf(old(self)@),
        ensures
            image_wf(final(self)@),
            final(self)@.regions == old(self)@.regions.push(MemoryRegion { base_address: base, size: bytes@.len() as usize }),
            final(self)@.memory == old(self)@.memory.push(bytes@),
            final(self)@.readable == old(self)@.readable.push(true),
    {
        let ghost m = self@.memory;
        let region = MemoryRegion { base_address: base, size: bytes.len() };
        self.regions.push(region);
        self.memory.push(bytes);
        self.readable.push(true);
        proof {
            assert(self@.memory =~= m.push(self.memory@.last()@));
        }
    }

    /// The index of the first region that holds `[address, address + n)`.
    fn find(&self, address: usize, n: usize) -> (r: Option<usize>)
        requires
            image_shape(self@),
        ensures
            r matches Some(i) ==> covers(self@, i as int, address as int, n as int) && forall|k: int|
                0 <= k < i ==> !covers(self@, k, address as int, n as int),
            r matches Some(i) ==> self@.memory[i as int].len() <= usize::MAX,
            r is None ==> forall|k: int| !covers(self@, k, address as int, n as int),
    {
        let mut i: usize = 0;
        while i < self.regions.len()
            invariant
                image_shape(self@),
                0 <= i <= self@.regions.len(),
                forall|k: int| 0 <= k < i ==> !covers(self@, k, address as int, n as int),
            decreases self@.regions.len() - i,
        {
            let base = self.regions[i].base_address;
            let len = self.memory[i].len();
            assert(len == self@.memory[i as int].len());
            if base <= address && address - base <= len && n <= len - (address - base) {
                return Some(i);
            }
            i = i + 1;
        }
        None
    }

    /// Marks the first region based at `base` as readable or not.
    pub fn set_readable(&mut self, base: usize, readable: bool) -> (r: bool)
        requires
            image_wf(old(self)@),
        ensures
            image_wf(final(self)@),
            final(self)@.regions == old(self)@.regions,
            final(self)@.memory == old(self)@.memory,
            r == exists|i: int| 0 <= i < old(self)@.regions.len() && #[trigger] old(self)@.regions[i].base_address == base,
            r ==> exists|i: int|
                0 <= i < old(self)@.regions.len() && old(self)@.regions[i].base_address == base
                    && #[trigger] final(self)@.readable == old(self)@.readable.update(i, readable),
            !r ==> final(self)@ == old(self)@,
    {
        let mut i: usize = 0;
        while i < self.regions.len()
            invariant
                image_wf(self@),
                self@ == old(self)@,
                0 <= i <= self@.regions.len(),
                forall|k: int| 0 <= k < i ==> #[trigger] self@.regions[k].base_address != base,
            decreases self@.regions.len() - i,
        {
            if self.regions[i].base_address == base {
                let ghost before = self@;
                self.readable.set(i, readable);
                proof {
                    assert(self@.regions[i as int].base_address == base);
                    assert(self@.memory =~= before.memory);
                }
                return true;
            }
            i = i + 1;
        }
        false
    }

    /// Overwrites memory at `address` with `data`, when one region holds the
    /// whole range; reports whether it did.
    pub fn write(&mut self, address: usize, data: &[u8]) -> (r: bool)
        requires
            image_wf(old(self)@),
        ensures
            image_wf(final(self)@),
            final(self)@.regions == old(self)@.regions,
            final(self)@.readable == old(self)@.readable,
            r == exists|i: int| covers(old(self)@, i, address as int, data@.len() as int),
            r ==> exists|i: int|
                covers(old(self)@, i, address as int, data@.len() as int) && #[trigger] final(self)@.memory
                    == old(self)@.memory.update(
                    i,
                    splice(old(self)@.memory[i], address - old(self)@.regions[i].base_address, data@),
                ),
            !r ==> final(self)@ == old(self)@,
    {
        match self.find(address, data.len()) {
            None => false,
            Some(i) => {
                let ghost before = self@;
                let at = address - self.regions[i].base_address;
                let mut bytes = self.memory[i].clone();
                assert(bytes@ == before.memory[i as int]);
                let mut k: usize = 0;
                while k < data.len()
                    invariant
                        0 <= k <= data@.len(),
                        0 <= i < before.memory.len(),
                        before.memory[i as int].len() <= usize::MAX,
                        at + data@.len() <= before.memory[i as int].len(),
                        bytes@.len() == before.memory[i as int].len(),
                        forall|j: int| 0 <= j < at ==> bytes@[j] == before.memory[i as int][j],
                        forall|j: int| at + data@.len() <= j < bytes@.len() ==> bytes@[j] == before.memory[i as int][j],
                        forall|j: int| at <= j < at + k ==> bytes@[j] == data@[j - at],
                    decreases data@.len() - k,
                {
                    bytes.set(at + k, data[k]);
                    k = k + 1;
                }
                assert(bytes@ =~= splice(before.memory[i as int], at as int, data@));
                self.memory.set(i, bytes);
                proof {
                    assert(self@.memory =~= before.memory.update(i as int, splice(before.memory[i as int], at as int, data@)));
                }
                true
            },
        }
    }

    /// Reads `n` bytes at `address` from the first region that holds them
    /// all; fails when there is none or it is not readable.
    pub fn read(&self, address: usize, n: usize) -> (r: Result<Vec<u8>, ReadError>)
        requires
            image_shape(self@),
        ensures
            r is Ok <==> exists|i: int|
                covers(self@, i, address as int, n as int) && self@.readable[i] && forall|k: int|
                    0 <= k < i ==> !covers(self@, k, address as int, n as int),
            r matches Ok(v) ==> exists|i: int|
                covers(self@, i, address as int, n as int) && #[trigger] v@ == self@.memory[i].subrange(
                    address - self@.regions[i].base_address,
                    address - self@.regions[i].base_address + n,
                ),
            r matches Err(e) ==> e == (ReadError { address, len: n }),
    {
        match self.find(address, n) {
            None => Err(ReadError { address, len: n }),
            Some(i) => {
                if !self.readable[i] {
                    return Err(ReadError { address, len: n });
                }
                let at = address - self.regions[i].base_address;
                let src = &self.memory[i];
                assert(src@ == self@.memory[i as int]);
                let mut out: Vec<u8> = Vec::new();
                let mut k: usize = 0;
                while k < n
                    invariant
                        0 <= k <= n,
                        at + n <= src@.len(),
                        src@.len() <= usize::MAX,
                        out@ =~= src@.subrange(at as int, at + k),
                    decreases n - k,
                {
                    out.push(src[at + k]);
                    k = k + 1;
                }
                Ok(out)
            },
        }
    }
}

impl Process for MemoryImage {
    fn read_memory_bytes(&self, address: usize, bytes_to_read: usize) -> Result<Vec<u8>, ReadError> {
        if self.memory.len() == self.regions.len() && self.readable.len() == self.regions.len() {
            self.read(address, bytes_to_read)
        } else {
            Err(ReadError { address, len: bytes_to_read })
        }
    }

    fn get_writable_regions(&self) -> Vec<MemoryRegion> {
        self.regions.clone()
    }
}

} // verus!

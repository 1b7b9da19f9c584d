//! The field store: two square grids of equal shape, the map and the
//! indicator.
//!
//! The two grids keep their roles. The map-update stage reads the map and
//! accumulates into the indicator; no stage reads and writes one grid
//! through two bindings of one dispatch.

use vstd::prelude::*;
use crate::dispatch::cells_of;
use crate::error::ConfigError;

verus! {

/// Bytes of one cell.
pub const CELL_BYTES: u32 = 4;

/// The two grids. Cells hold the bit patterns of 32-bit floats, row after
/// row.
pub struct FieldStore {
    side: u32,
    map: Vec<u32>,
    indicator: Vec<u32>,
}

impl FieldStore {
    /// Cells along one edge of each grid.
    pub closed spec fn side(&self) -> nat {
        self.side as nat
    }

    /// The cells of the map.
    pub closed spec fn map(&self) -> Seq<u32> {
        self.map@
    }

    /// The cells of the indicator.
    pub closed spec fn indicator(&self) -> Seq<u32> {
        self.indicator@
    }

    /// Both grids have one cell for each pair of a row and a column, every
    /// cell is zero, and the bytes of one grid fit in 32 bits.
    pub closed spec fn wf(&self) -> bool {
        &&& self.map@ == Seq::new(cells_of(self.side as nat), |i: int| 0u32)
        &&& self.indicator@ == self.map@
        &&& CELL_BYTES * cells_of(self.side as nat) <= u32::MAX
    }

    /// A well-formed store is the store that [`FieldStore::create`] makes.
    pub proof fn lemma_wf(&self)
        requires
            self.wf(),
        ensures
            Self::fits(self.side()),
            self.map() == Seq::new(cells_of(self.side()), |i: int| 0u32),
            self.indicator() == self.map(),
    {
    }

    /// Whether a field of this side can be created: the bytes of one grid
    /// must fit in 32 bits.
    pub open spec fn fits(side: nat) -> bool {
        CELL_BYTES * cells_of(side) <= u32::MAX
    }

    /// Creates both grids for a field of `side` by `side` cells, every cell
    /// zero. Fails when the bytes of one grid do not fit in 32 bits.
    pub fn create(side: u32) -> (store: Result<FieldStore, ConfigError>)
        ensures
            match store {
                Ok(s) => {
                    &&& Self::fits(side as nat)
                    &&& s.wf()
                    &&& s.side() == side
                    &&& s.map() == Seq::new(cells_of(side as nat), |i: int| 0u32)
                    &&& s.indicator() == s.map()
                },
                Err(e) => !Self::fits(side as nat) && e == ConfigError::FieldTooLarge,
            },
    {
        if side >= 32768 {
            assert(cells_of(side as nat) >= 32768 * 32768) by (nonlinear_arith)
                requires
                    side >= 32768,
            ;
            return Err(ConfigError::FieldTooLarge);
        }
        assert(cells_of(side as nat) <= 32767 * 32767) by (nonlinear_arith)
            requires
                side <= 32767,
        ;
        let cells: u32 = side * side;
        let mut map: Vec<u32> = Vec::new();
        let mut indicator: Vec<u32> = Vec::new();
        let mut i: u32 = 0;
        while i < cells
            invariant
                i <= cells,
                map@.len() == i,
                indicator@.len() == i,
                forall|k: int| 0 <= k < i ==> map@[k] == 0,
                forall|k: int| 0 <= k < i ==> indicator@[k] == 0,
            decreases cells - i,
        {
            map.push(0);
            indicator.push(0);
            i = i + 1;
        }
        assert(map@ =~= Seq::new(cells_of(side as nat), |i: int| 0u32));
        assert(indicator@ =~= map@);
        Ok(FieldStore { side, map, indicator })
    }

    /// Cells along one edge of each grid.
    pub fn side_length(&self) -> (side: u32)
        ensures
            side == self.side(),
    {
        self.side
    }

    /// Number of cells of each grid.
    pub fn cell_count(&self) -> (cells: u32)
        requires
            self.wf(),
        ensures
            cells == cells_of(self.side()),
            cells == self.map().len(),
            cells == self.indicator().len(),
    {
        self.map.len() as u32
    }

    /// Size in bytes of each grid.
    pub fn grid_bytes(&self) -> (bytes: u32)
        requires
            self.wf(),
        ensures
            bytes == CELL_BYTES * cells_of(self.side()),
    {
        CELL_BYTES * (self.map.len() as u32)
    }

    /// The cells of the map, row after row.
    pub fn map_cells(&self) -> (cells: &Vec<u32>)
        ensures
            cells@ == self.map(),
            self.wf() ==> forall|i: int| 0 <= i < cells@.len() ==> cells@[i] == 0,
    {
        &self.map
    }

    /// The cells of the indicator, row after row.
    pub fn indicator_cells(&self) -> (cells: &Vec<u32>)
        ensures
            cells@ == self.indicator(),
            self.wf() ==> forall|i: int| 0 <= i < cells@.len() ==> cells@[i] == 0,
    {
        &self.indicator
    }
}

} // verus!

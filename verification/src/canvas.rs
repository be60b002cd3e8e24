//! The canvas: owns the set of registered plugins, enforces the unique-name
//! and non-overlap invariant at insertion time, and composes all rendered
//! fragments into one finished frame per tick.
//!
//! Placement conflicts are detected against an occupancy grid built by
//! unioning the footprints of every plugin accepted so far, cell by cell,
//! so the check stays correct even for non-rectangular future footprints.

use vstd::prelude::*;

use crate::matrix::{cell_at, spec_join, spec_shift, zero_grid, Matrix, MATRIX_AREA, MATRIX_HEIGHT, MATRIX_WIDTH};
use crate::picture::Picture;
use crate::plugin::Plugin;
use crate::wasm_module::WasmError;

verus! {

/// Failure kinds of registering a plugin on the canvas.
#[derive(Debug, Clone, Copy, PartialEq, Eq, Structural)]
pub enum AddPainterError {
    /// The candidate's rectangle shares a cell with a registered plugin's.
    SpaceTaken,
    /// A plugin of the same name is already registered.
    DuplicateIdentifier,
}

/// Some plugin among the first `n` of the sequence covers the cell in row
/// `row` and column `col`.
pub open spec fn occupied_among<P>(ps: Seq<Plugin<P>>, n: int, row: int, col: int) -> bool {
    exists|k: int| 0 <= k < n && ps[k].covers(row, col)
}

/// Some plugin of the sequence carries the name.
pub open spec fn name_among<P>(ps: Seq<Plugin<P>>, name: Seq<char>) -> bool {
    exists|k: int| 0 <= k < ps.len() && ps[k].name@ == name
}

/// The candidate's rectangle shares at least one display cell with a
/// rectangle of the sequence.
pub open spec fn conflicts_with<P>(ps: Seq<Plugin<P>>, plugin: &Plugin<P>) -> bool {
    exists|row: int, col: int|
        0 <= row < MATRIX_HEIGHT && 0 <= col < MATRIX_WIDTH && plugin.covers(row, col)
            && occupied_among(ps, ps.len() as int, row, col)
}

/// The candidate may be registered on top of the sequence: its name is
/// fresh and its rectangle claims no cell already taken.
pub open spec fn insertable<P>(ps: Seq<Plugin<P>>, plugin: &Plugin<P>) -> bool {
    &&& !name_among(ps, plugin.name@)
    &&& !conflicts_with(ps, plugin)
}

/// The canvas. One instance exists per loaded configuration and owns every
/// plugin it contains; a reload replaces the canvas wholesale.
#[derive(Debug)]
pub struct Canvas<P> {
    pub plugins: Vec<Plugin<P>>,
}

impl<P> Canvas<P> {
    /// Some registered plugin covers the cell.
    pub open spec fn occupied(&self, row: int, col: int) -> bool {
        occupied_among(self.plugins@, self.plugins@.len() as int, row, col)
    }

    /// A plugin of this name is already registered.
    pub open spec fn name_taken(&self, name: Seq<char>) -> bool {
        name_among(self.plugins@, name)
    }

    /// The candidate's rectangle shares a display cell with a registered
    /// plugin's rectangle.
    pub open spec fn conflicts(&self, plugin: &Plugin<P>) -> bool {
        conflicts_with(self.plugins@, plugin)
    }

    /// Canvas invariant: every registered plugin lies within the display
    /// bounds and was insertable on top of those registered before it, so
    /// names are unique and no two rectangles share a cell.
    pub open spec fn wf(&self) -> bool {
        forall|j: int|
            0 <= j < self.plugins@.len() ==> ((#[trigger] self.plugins@[j]).fits() && insertable(
                self.plugins@.take(j),
                &self.plugins@[j],
            ))
    }

    /// The occupancy grid of all vacant and busy cells: a cell holds 1
    /// exactly when some registered plugin's rectangle covers it.
    pub fn get_space_matrix(&self) -> (r: Matrix)
        ensures
            r.wf(),
            forall|row: int, col: int|
                0 <= row < MATRIX_HEIGHT && 0 <= col < MATRIX_WIDTH ==> r@[cell_at(row, col)] == (
                if self.occupied(row, col) {
                    1u8
                } else {
                    0u8
                }),
    {
        let mut acc = Matrix::default();
        let mut j: usize = 0;
        while j < self.plugins.len()
            invariant
                j <= self.plugins@.len(),
                acc.wf(),
                forall|row: int, col: int|
                    0 <= row < MATRIX_HEIGHT && 0 <= col < MATRIX_WIDTH ==> acc@[cell_at(row, col)]
                        == (if occupied_among(self.plugins@, j as int, row, col) {
                        1u8
                    } else {
                        0u8
                    }),
            decreases self.plugins@.len() - j,
        {
            let p = &self.plugins[j];
            let frag = p.get_space_as_matrix();
            acc.join_matrix(&frag);
            proof {
                assert forall|row: int, col: int|
                    0 <= row < MATRIX_HEIGHT && 0 <= col < MATRIX_WIDTH implies acc@[cell_at(
                    row,
                    col,
                )] == (if occupied_among(self.plugins@, j as int + 1, row, col) {
                    1u8
                } else {
                    0u8
                }) by {
                    let i = cell_at(row, col);
                    assert(0 <= i < MATRIX_AREA);
                    if self.plugins@[j as int].covers(row, col) {
                        assert(occupied_among(self.plugins@, j as int + 1, row, col));
                    } else if occupied_among(self.plugins@, j as int, row, col) {
                        let k = choose|k: int|
                            0 <= k < j as int && self.plugins@[k].covers(row, col);
                        assert(0 <= k < j as int + 1 && self.plugins@[k].covers(row, col));
                        assert(occupied_among(self.plugins@, j as int + 1, row, col));
                    } else {
                        if occupied_among(self.plugins@, j as int + 1, row, col) {
                            let k = choose|k: int|
                                0 <= k < j as int + 1 && self.plugins@[k].covers(row, col);
                            assert(false);
                        }
                    }
                }
            }
            j = j + 1;
        }
        acc
    }

    /// Whether the candidate's picture has all its display space free:
    /// true exactly when no registered plugin covers a cell of the
    /// candidate's rectangle.
    #[verifier::loop_isolation(false)]
    pub fn is_space_vacant(&self, plugin: &Plugin<P>) -> (r: bool)
        ensures
            r == !self.conflicts(plugin),
    {
        let space_matrix = self.get_space_matrix();
        let mut row: usize = 0;
        while row < MATRIX_HEIGHT
            invariant
                row <= MATRIX_HEIGHT,
                forall|rr: int, cc: int|
                    0 <= rr < row && 0 <= cc < MATRIX_WIDTH ==> !(plugin.covers(rr, cc)
                        && self.occupied(rr, cc)),
            decreases MATRIX_HEIGHT - row,
        {
            let mut col: usize = 0;
            while col < MATRIX_WIDTH
                invariant
                    row < MATRIX_HEIGHT,
                    col <= MATRIX_WIDTH,
                    forall|cc: int|
                        0 <= cc < col ==> !(plugin.covers(row as int, cc) && self.occupied(
                            row as int,
                            cc,
                        )),
                decreases MATRIX_WIDTH - col,
            {
                let covers = row >= plugin.offset_y && row - plugin.offset_y < plugin.img_height
                    && col >= plugin.offset_x && col - plugin.offset_x < plugin.img_width;
                if covers && space_matrix.get_el(row, col) > 0 {
                    proof {
                        assert(plugin.covers(row as int, col as int) && self.occupied(
                            row as int,
                            col as int,
                        ));
                        assert(self.conflicts(plugin));
                    }
                    return false;
                }
                col = col + 1;
            }
            row = row + 1;
        }
        true
    }

    /// Registers one plugin. Insertion is atomic: on failure the canvas is
    /// unchanged. A duplicate name is reported before any space conflict.
    pub fn add_plugin(&mut self, plugin: Plugin<P>) -> (r: Result<(), AddPainterError>)
        requires
            plugin.fits(),
        ensures
            r matches Err(_) ==> *final(self) == *old(self),
            (r matches Err(e) && e == AddPainterError::DuplicateIdentifier) <==> old(
                self,
            ).name_taken(plugin.name@),
            (r matches Err(e) && e == AddPainterError::SpaceTaken) <==> (!old(self).name_taken(
                plugin.name@,
            ) && old(self).conflicts(&plugin)),
            r is Ok <==> insertable(old(self).plugins@, &plugin),
            r is Ok ==> final(self).plugins@ == old(self).plugins@.push(plugin),
            old(self).wf() && r is Ok ==> final(self).wf(),
    {
        if self.contains_name(&plugin.name) {
            return Err(AddPainterError::DuplicateIdentifier);
        }
        let is_vacant = self.is_space_vacant(&plugin);
        if !is_vacant {
            return Err(AddPainterError::SpaceTaken);
        }
        proof {
            if old(self).wf() {
                let ps = self.plugins@;
                let newps = ps.push(plugin);
                assert forall|j: int|
                    0 <= j < newps.len() implies ((#[trigger] newps[j]).fits() && insertable(
                    newps.take(j),
                    &newps[j],
                )) by {
                    if j < ps.len() {
                        assert(newps.take(j) =~= ps.take(j));
                        assert(newps[j] == ps[j]);
                    } else {
                        assert(newps.take(j) =~= ps);
                    }
                }
            }
        }
        self.plugins.push(plugin);
        Ok(())
    }

    /// Whether a plugin of this name is registered.
    fn contains_name(&self, name: &String) -> (r: bool)
        ensures
            r == self.name_taken(name@),
    {
        let mut j: usize = 0;
        while j < self.plugins.len()
            invariant
                j <= self.plugins@.len(),
                forall|k: int| 0 <= k < j ==> self.plugins@[k].name@ != name@,
            decreases self.plugins@.len() - j,
        {
            if self.plugins[j].name.eq(name) {
                return true;
            }
            j = j + 1;
        }
        false
    }

    /// Builds a canvas by registering the plugins in configuration order.
    /// Insertion is atomic per plugin: the first failing insert aborts the
    /// whole build, reporting the offending plugin's name and the failure
    /// kind; no plugin is skipped.
    #[verifier::loop_isolation(false)]
    pub fn build_from(plugin_list: Vec<Plugin<P>>) -> (r: Result<
        Canvas<P>,
        (String, AddPainterError),
    >)
        requires
            forall|j: int| 0 <= j < plugin_list@.len() ==> (#[trigger] plugin_list@[j]).fits(),
        ensures
            r is Ok <==> (forall|j: int|
                0 <= j < plugin_list@.len() ==> insertable(
                    plugin_list@.take(j),
                    &plugin_list@[j],
                )),
            r matches Ok(c) ==> c.plugins@ == plugin_list@ && c.wf(),
            r matches Err(e) ==> exists|j: int|
                #![auto]
                0 <= j < plugin_list@.len() && !insertable(plugin_list@.take(j), &plugin_list@[j])
                    && e.0@ == plugin_list@[j].name@ && e.1 == (if name_among(
                    plugin_list@.take(j),
                    plugin_list@[j].name@,
                ) {
                    AddPainterError::DuplicateIdentifier
                } else {
                    AddPainterError::SpaceTaken
                }),
    {
        let ghost all = plugin_list@;
        let mut rest = plugin_list;
        let mut canvas = Canvas::<P> { plugins: Vec::new() };
        while rest.len() > 0
            invariant
                all.len() == canvas.plugins@.len() + rest@.len(),
                canvas.plugins@ == all.take(canvas.plugins@.len() as int),
                rest@ == all.skip(canvas.plugins@.len() as int),
                canvas.wf(),
                forall|k: int|
                    0 <= k < canvas.plugins@.len() ==> insertable(all.take(k), &all[k]),
                forall|j: int| 0 <= j < all.len() ==> (#[trigger] all[j]).fits(),
            decreases rest@.len(),
        {
            let ghost n = canvas.plugins@.len() as int;
            let plugin = rest.remove(0);
            proof {
                assert(plugin == all[n]);
                assert(rest@ =~= all.skip(n + 1));
            }
            let name = plugin.name.clone();
            match canvas.add_plugin(plugin) {
                Ok(()) => {
                    proof {
                        assert(canvas.plugins@ =~= all.take(n + 1));
                    }
                },
                Err(kind) => {
                    proof {
                        assert(!(forall|j: int|
                            0 <= j < all.len() ==> insertable(all.take(j), &all[j]))) by {
                            assert(0 <= n < all.len());
                            assert(!insertable(all.take(n), &all[n]));
                        }
                        assert(exists|j: int|
                            #![auto]
                            0 <= j < all.len() && !insertable(all.take(j), &all[j]) && name@
                                == all[j].name@ && kind == (if name_among(
                                all.take(j),
                                all[j].name@,
                            ) {
                                AddPainterError::DuplicateIdentifier
                            } else {
                                AddPainterError::SpaceTaken
                            })) by {
                            assert(0 <= n < all.len() && !insertable(all.take(n), &all[n]) && name@
                                == all[n].name@ && kind == (if name_among(
                                all.take(n),
                                all[n].name@,
                            ) {
                                AddPainterError::DuplicateIdentifier
                            } else {
                                AddPainterError::SpaceTaken
                            }));
                        }
                    }
                    return Err((name, kind));
                },
            }
        }
        proof {
            assert(canvas.plugins@ =~= all);
        }
        Ok(canvas)
    }
}

/// The frame composed from one fragment per plugin, in registration order:
/// starting from the all-zero grid, each fragment is translated to its
/// plugin's offset and united onto the frame.
pub open spec fn composed_frame<P>(plugins: Seq<Plugin<P>>, fragments: Seq<Seq<u8>>) -> Seq<u8>
    decreases plugins.len(),
{
    if plugins.len() == 0 {
        zero_grid()
    } else {
        spec_join(
            composed_frame(plugins.drop_last(), fragments.drop_last()),
            spec_shift(
                fragments.last(),
                plugins.last().offset_x as int,
                plugins.last().offset_y as int,
            ),
        )
    }
}

/// Law: on a well-formed canvas no two registered plugins share a name, and
/// no two registered plugins' rectangles share a display cell.
pub proof fn lemma_wf_names_unique_and_rects_disjoint<P>(c: &Canvas<P>)
    requires
        c.wf(),
    ensures
        forall|j: int, k: int|
            0 <= j < k < c.plugins@.len() ==> c.plugins@[j].name@ != c.plugins@[k].name@,
        forall|j: int, k: int, row: int, col: int|
            #![auto]
            0 <= j < k < c.plugins@.len() && 0 <= row < MATRIX_HEIGHT && 0 <= col < MATRIX_WIDTH
                ==> !(c.plugins@[j].covers(row, col) && c.plugins@[k].covers(row, col)),
{
    let ps = c.plugins@;
    assert forall|j: int, k: int| 0 <= j < k < ps.len() implies ps[j].name@ != ps[k].name@ by {
        assert(insertable(ps.take(k), &ps[k]));
        if ps[j].name@ == ps[k].name@ {
            assert(ps.take(k)[j] == ps[j]);
            assert(name_among(ps.take(k), ps[k].name@));
        }
    }
    assert forall|j: int, k: int, row: int, col: int|
        #![auto]
        0 <= j < k < ps.len() && 0 <= row < MATRIX_HEIGHT && 0 <= col
            < MATRIX_WIDTH implies !(ps[j].covers(row, col) && ps[k].covers(row, col)) by {
        assert(insertable(ps.take(k), &ps[k]));
        if ps[j].covers(row, col) && ps[k].covers(row, col) {
            assert(ps.take(k)[j] == ps[j]);
            assert(occupied_among(ps.take(k), ps.take(k).len() as int, row, col));
            assert(conflicts_with(ps.take(k), &ps[k]));
        }
    }
}

/// Law: the canvas invariant depends only on names, dimensions and offsets,
/// so a render tick, which may change only the renderers' internal state
/// (as `paint_matrix` ensures), keeps a well-formed canvas well-formed.
pub proof fn lemma_same_placements_preserve_wf<P>(before: &Canvas<P>, after: &Canvas<P>)
    requires
        before.wf(),
        after.plugins@.len() == before.plugins@.len(),
        forall|k: int|
            0 <= k < before.plugins@.len() ==> (#[trigger] after.plugins@[k]).same_placement(
                &before.plugins@[k],
            ),
    ensures
        after.wf(),
{
    let a = after.plugins@;
    let b = before.plugins@;
    assert forall|j: int| 0 <= j < a.len() implies ((#[trigger] a[j]).fits() && insertable(
        a.take(j),
        &a[j],
    )) by {
        assert(a[j].same_placement(&b[j]));
        assert(insertable(b.take(j), &b[j]));
        if name_among(a.take(j), a[j].name@) {
            let k = choose|k: int| 0 <= k < a.take(j).len() && a.take(j)[k].name@ == a[j].name@;
            assert(a.take(j)[k] == a[k] && a[k].same_placement(&b[k]));
            assert(b.take(j)[k] == b[k]);
            assert(name_among(b.take(j), b[j].name@));
        }
        if conflicts_with(a.take(j), &a[j]) {
            let (row, col) = choose|row: int, col: int|
                0 <= row < MATRIX_HEIGHT && 0 <= col < MATRIX_WIDTH && a[j].covers(row, col)
                    && occupied_among(a.take(j), a.take(j).len() as int, row, col);
            let k = choose|k: int| 0 <= k < j && a.take(j)[k].covers(row, col);
            assert(a.take(j)[k] == a[k] && a[k].same_placement(&b[k]));
            assert(b.take(j)[k] == b[k] && b[k].covers(row, col));
            assert(occupied_among(b.take(j), b.take(j).len() as int, row, col));
            assert(b[j].covers(row, col));
            assert(conflicts_with(b.take(j), &b[j]));
        }
    }
}

impl<P: Picture> Canvas<P> {
    /// One render tick: asks every plugin to render, translates each
    /// fragment to its plugin's offset, and unions the results into one
    /// frame, recomputed from nothing: any returned frame is the
    /// composition of one well-formed fragment per plugin. With no plugins
    /// registered the frame is the all-zero grid; the first failing render
    /// aborts the tick.
    pub fn paint_matrix(&mut self) -> (r: Result<Matrix, WasmError>)
        ensures
            r matches Ok(m) ==> m.wf(),
            r matches Ok(m) ==> exists|fragments: Seq<Seq<u8>>|
                {
                    &&& fragments.len() == old(self).plugins@.len()
                    &&& (forall|k: int|
                        0 <= k < fragments.len() ==> (#[trigger] fragments[k]).len()
                            == MATRIX_AREA)
                    &&& m@ == composed_frame(old(self).plugins@, fragments)
                },
            old(self).plugins@.len() == 0 ==> (r matches Ok(m) && m@ == zero_grid()),
            final(self).plugins@.len() == old(self).plugins@.len(),
            forall|k: int|
                0 <= k < old(self).plugins@.len() ==> (#[trigger] final(self).plugins@[k]).same_placement(
                    &old(self).plugins@[k],
                ),
    {
        let ghost orig = self.plugins@;
        let ghost mut fragments: Seq<Seq<u8>> = Seq::empty();
        let mut acc = Matrix::default();
        let mut j: usize = 0;
        while j < self.plugins.len()
            invariant
                j <= self.plugins@.len(),
                orig == old(self).plugins@,
                self.plugins@.len() == orig.len(),
                acc.wf(),
                fragments.len() == j,
                forall|k: int|
                    0 <= k < fragments.len() ==> (#[trigger] fragments[k]).len() == MATRIX_AREA,
                acc@ == composed_frame(orig.take(j as int), fragments),
                forall|k: int|
                    0 <= k < orig.len() ==> (#[trigger] self.plugins@[k]).same_placement(&orig[k]),
            decreases self.plugins@.len() - j,
        {
            let p = &mut self.plugins[j];
            let frag = match p.draw() {
                Ok(m) => m,
                Err(e) => {
                    return Err(e);
                },
            };
            let shifted = frag.shift_matrix(p.offset_x, p.offset_y);
            acc.join_matrix(&shifted);
            proof {
                let fragments_before = fragments;
                fragments = fragments.push(frag@);
                assert(orig.take(j + 1).drop_last() =~= orig.take(j as int));
                assert(fragments.drop_last() =~= fragments_before);
                assert(orig.take(j + 1).last() == orig[j as int]);
                assert(shifted@ == spec_shift(
                    frag@,
                    orig[j as int].offset_x as int,
                    orig[j as int].offset_y as int,
                ));
            }
            j = j + 1;
        }
        proof {
            assert(orig.take(orig.len() as int) =~= orig);
            if orig.len() == 0 {
                assert(acc@ == zero_grid());
            }
        }
        Ok(acc)
    }
}

} // verus!

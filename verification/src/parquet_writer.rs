//! The columnar writer: buffers typed rows of one entity kind and rotates
//! the buffer into an immutable row group once a configured row threshold
//! is reached.
//!
//! Emitting a full row group is the writer's only durable effect:
//! buffered-but-unflushed rows are lost with the process, so callers that
//! need durability track externally which block ranges have been confirmed
//! flushed — that is what the ingestion path's progress cursor does.

use vstd::prelude::*;

verus! {

/// Configuration of one per-entity-kind writer: where its files go and how
/// many rows one immutable file holds.
#[derive(Debug, Clone, PartialEq, Eq)]
pub struct ParquetConfig {
    pub path: String,
    pub rows_per_file: usize,
}

/// A columnar, per-entity-kind row buffer: one growable sequence per
/// attribute, index-aligned, so that row `i` of every sequence describes
/// the same logical entity instance.
pub trait EntityRows: Sized {
    /// The row shape the buffer accepts.
    type Row;

    /// The model of one buffered row: what the columns keep of it.
    type RowModel;

    /// All per-attribute sequences have equal length.
    spec fn inv(&self) -> bool;

    /// The buffered rows, index-aligned across all attribute sequences.
    spec fn rows(&self) -> Seq<Self::RowModel>;

    /// What the columns keep of one accepted row.
    spec fn row_model(row: Self::Row) -> Self::RowModel;

    /// Which rows the buffer accepts: the data model's own bounds.
    spec fn row_ok(row: Self::Row) -> bool;

    fn new_empty() -> (r: Self)
        ensures
            r.inv(),
            r.rows() == Seq::<Self::RowModel>::empty(),
    ;

    fn push_row(&mut self, row: Self::Row)
        requires
            old(self).inv(),
            Self::row_ok(row),
        ensures
            final(self).inv(),
            final(self).rows() == old(self).rows().push(Self::row_model(row)),
    ;

    fn row_count(&self) -> (n: usize)
        requires
            self.inv(),
        ensures
            n == self.rows().len(),
    ;
}

/// A per-entity-kind columnar writer with a flush threshold.
pub struct ParquetWriter<T> {
    pub buf: T,
    pub cfg: ParquetConfig,
}

impl<T: EntityRows> ParquetWriter<T> {
    /// The buffer's per-attribute sequences are index-aligned.
    pub open spec fn inv(&self) -> bool {
        self.buf.inv()
    }

    /// The rows buffered and not yet flushed.
    pub open spec fn buffered(&self) -> Seq<T::RowModel> {
        self.buf.rows()
    }

    /// The models of one batch's rows, in order.
    pub open spec fn batch_models(rows: Seq<T::Row>) -> Seq<T::RowModel> {
        rows.map_values(|r: T::Row| T::row_model(r))
    }

    pub fn new(cfg: ParquetConfig) -> (r: Self)
        ensures
            r.inv(),
            r.buffered() == Seq::<T::RowModel>::empty(),
            r.cfg == cfg,
    {
        Self { buf: T::new_empty(), cfg }
    }

    /// How many rows are buffered and not yet flushed.
    pub fn len(&self) -> (n: usize)
        requires
            self.inv(),
        ensures
            n == self.buffered().len(),
    {
        self.buf.row_count()
    }

    /// Buffers one freshly fetched batch, appending each row to the
    /// per-attribute sequences in order. If the buffered row count has then
    /// reached or passed the configured threshold, the whole buffer is
    /// handed back as one immutable row group and the in-memory buffer is
    /// cleared; otherwise the call only buffers.
    pub fn send(&mut self, rows: Vec<T::Row>) -> (flushed: Option<T>)
        requires
            old(self).inv(),
            forall|i: int| 0 <= i < rows@.len() ==> T::row_ok(#[trigger] rows@[i]),
        ensures
            final(self).inv(),
            final(self).cfg == old(self).cfg,
            ({
                let appended = old(self).buffered() + Self::batch_models(rows@);
                if appended.len() >= old(self).cfg.rows_per_file {
                    &&& flushed matches Some(full)
                    &&& full.inv()
                    &&& full.rows() == appended
                    &&& final(self).buffered() == Seq::<T::RowModel>::empty()
                } else {
                    &&& flushed is None
                    &&& final(self).buffered() == appended
                }
            }),
    {
        let ghost orig = rows@;
        let ghost old_rows = self.buf.rows();
        let mut rest = rows;
        let n = rest.len();
        proof {
            assert(orig.len() == n);
            assert(orig.subrange(0, 0) =~= Seq::empty());
            assert(Self::batch_models(orig.subrange(0, 0)) =~= Seq::empty());
            assert(old_rows + Self::batch_models(orig.subrange(0, 0)) =~= old_rows);
        }
        while rest.len() > 0
            invariant
                self.buf.inv(),
                self.cfg == old(self).cfg,
                rest@.len() <= orig.len(),
                orig.len() <= usize::MAX,
                rest@ == orig.subrange(orig.len() - rest@.len(), orig.len() as int),
                forall|i: int| 0 <= i < orig.len() ==> T::row_ok(#[trigger] orig[i]),
                self.buf.rows() == old_rows + Self::batch_models(
                    orig.subrange(0, orig.len() - rest@.len()),
                ),
            decreases rest.len(),
        {
            let ghost k = orig.len() - rest@.len();
            let row = rest.remove(0);
            proof {
                assert(row == orig[k as int]);
                assert(rest@ =~= orig.subrange(k + 1, orig.len() as int));
            }
            self.buf.push_row(row);
            proof {
                assert(Self::batch_models(orig.subrange(0, k + 1)) =~= Self::batch_models(
                    orig.subrange(0, k as int),
                ).push(T::row_model(orig[k as int])));
                assert(old_rows + Self::batch_models(orig.subrange(0, k + 1)) =~= (old_rows
                    + Self::batch_models(orig.subrange(0, k as int))).push(
                    T::row_model(orig[k as int]),
                ));
            }
        }
        proof {
            assert(orig.subrange(0, orig.len() as int) =~= orig);
        }
        let count = self.buf.row_count();
        if count >= self.cfg.rows_per_file {
            let mut full = T::new_empty();
            core::mem::swap(&mut self.buf, &mut full);
            Some(full)
        } else {
            None
        }
    }
}

} // verus!

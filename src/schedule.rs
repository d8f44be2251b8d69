use vstd::prelude::*;
use vstd::arithmetic::div_mod::lemma_fundamental_div_mod_converse;

verus! {

/// An 8-bit RGB pixel, as it stands in the output buffer.
#[derive(Clone, Copy, Debug, PartialEq, Eq, Structural)]
pub struct Rgb {
    pub r: u8,
    pub g: u8,
    pub b: u8,
}

/// The worker that renders image row `row`, counting rows from the top.
/// That row is scanline `height - 1 - row`, and scanline `j` goes to worker
/// `j % workers`.
pub open spec fn worker_of(height: int, workers: int, row: int) -> int {
    (height - 1 - row) % workers
}

/// The image rows above `row` that worker `w` renders, top row first: the
/// order in which the worker renders them.
pub open spec fn rows_before(height: int, workers: int, w: int, row: int) -> Seq<int>
    decreases row,
{
    if row <= 0 {
        Seq::empty()
    } else {
        let s = rows_before(height, workers, w, row - 1);
        if worker_of(height, workers, row - 1) == w {
            s.push(row - 1)
        } else {
            s
        }
    }
}

/// All image rows of worker `w`, in the order in which it renders them.
pub open spec fn rows_of_worker(height: int, workers: int, w: int) -> Seq<int> {
    rows_before(height, workers, w, height)
}

/// Where image row `row` stands in the stream of the worker that renders it.
pub open spec fn slot_of(height: int, workers: int, row: int) -> int {
    rows_before(height, workers, worker_of(height, workers, row), row).len() as int
}

/// The pixel that belongs at index `q` of the row-major, top-first image:
/// row `q / width` is taken, in full, from its worker's stream at that row's
/// slot.
pub open spec fn expected_pixel(
    streams: Seq<Seq<Rgb>>,
    height: int,
    width: int,
    workers: int,
    q: int,
) -> Rgb {
    let row = q / width;
    streams[worker_of(height, workers, row)][slot_of(height, workers, row) * width + q % width]
}

proof fn lemma_rows_before_grow(height: int, workers: int, w: int, a: int, b: int)
    requires
        0 <= a <= b,
    ensures
        rows_before(height, workers, w, a).len() <= rows_before(height, workers, w, b).len(),
        forall|k: int| 0 <= k < rows_before(height, workers, w, a).len()
            ==> rows_before(height, workers, w, b)[k] == rows_before(height, workers, w, a)[k],
    decreases b,
{
    if a < b {
        lemma_rows_before_grow(height, workers, w, a, b - 1);
    }
}

/// The order of rows is the same at both ends of the pipeline: for every
/// image row, the chunk that the collector takes for it from its worker's
/// stream is the one that the worker rendered for that very row.
pub proof fn lemma_rows_in_production_order(height: int, workers: int, row: int)
    requires
        0 < workers,
        0 <= row < height,
    ensures
        0 <= worker_of(height, workers, row) < workers,
        0 <= slot_of(height, workers, row)
            < rows_of_worker(height, workers, worker_of(height, workers, row)).len(),
        rows_of_worker(height, workers, worker_of(height, workers, row))[slot_of(
            height,
            workers,
            row,
        )] == row,
{
    let w = worker_of(height, workers, row);
    lemma_rows_before_grow(height, workers, w, row + 1, height);
}

proof fn lemma_rows_before_shape(height: int, workers: int, w: int, row: int)
    requires
        0 <= row,
    ensures
        forall|k: int| 0 <= k < rows_before(height, workers, w, row).len() ==> {
            let x = #[trigger] rows_before(height, workers, w, row)[k];
            0 <= x < row && worker_of(height, workers, x) == w
        },
        forall|k: int, m: int| 0 <= k < m < rows_before(height, workers, w, row).len()
            ==> rows_before(height, workers, w, row)[k] < rows_before(height, workers, w, row)[m],
    decreases row,
{
    if row > 0 {
        lemma_rows_before_shape(height, workers, w, row - 1);
        let prev = rows_before(height, workers, w, row - 1);
        let cur = rows_before(height, workers, w, row);
        assert forall|k: int| 0 <= k < cur.len() implies {
            let x = #[trigger] cur[k];
            0 <= x < row && worker_of(height, workers, x) == w
        } by {
            if k < prev.len() {
                assert(cur[k] == prev[k]);
            }
        }
        assert forall|k: int, m: int| 0 <= k < m < cur.len() implies cur[k] < cur[m] by {
            assert(cur[k] == prev[k]);
            if m < prev.len() {
                assert(cur[m] == prev[m]);
            }
        }
    }
}

/// Each worker renders only rows of the image that are assigned to it, and
/// renders them top-down, the order in which the image is put together.
pub proof fn lemma_worker_rows_top_down(height: int, workers: int, w: int)
    requires
        0 <= height,
    ensures
        forall|k: int| 0 <= k < rows_of_worker(height, workers, w).len() ==> {
            let x = #[trigger] rows_of_worker(height, workers, w)[k];
            0 <= x < height && worker_of(height, workers, x) == w
        },
        forall|k: int, m: int| 0 <= k < m < rows_of_worker(height, workers, w).len()
            ==> rows_of_worker(height, workers, w)[k] < rows_of_worker(height, workers, w)[m],
{
    lemma_rows_before_shape(height, workers, w, height);
}

/// Which worker renders image row `row`, counting rows from the top.
pub fn row_worker(height: usize, workers: usize, row: usize) -> (r: usize)
    requires
        0 < workers,
        row < height,
    ensures
        r == worker_of(height as int, workers as int, row as int),
        r < workers,
{
    (height - 1 - row) % workers
}

/// The image rows, counted from the top, that worker `w` renders, in the
/// order in which it renders them.
pub fn worker_rows(height: usize, workers: usize, w: usize) -> (r: Vec<usize>)
    requires
        0 < workers,
    ensures
        r@.map_values(|x: usize| x as int) == rows_of_worker(height as int, workers as int, w as int),
{
    let mut rows: Vec<usize> = Vec::new();
    let mut row: usize = 0;
    while row < height
        invariant
            0 < workers,
            row <= height,
            rows@.map_values(|x: usize| x as int) == rows_before(height as int, workers as int, w as int, row as int),
        decreases height - row,
    {
        if row_worker(height, workers, row) == w {
            rows.push(row);
        }
        proof {
            assert(rows@.map_values(|x: usize| x as int) =~= rows_before(height as int, workers as int, w as int, row + 1));
        }
        row = row + 1;
    }
    rows
}

/// Builds the image, top row first, from what each worker streamed: worker
/// `w` hands over, row after row in the order of `rows_of_worker`, `width`
/// pixels per row. Going down the image, the collector takes the next
/// `width` pixels of the stream of the worker that rendered each row.
pub fn assemble(height: usize, width: usize, workers: usize, streams: &Vec<Vec<Rgb>>) -> (image: Vec<Rgb>)
    requires
        0 < workers,
        streams@.len() == workers,
        height * width <= usize::MAX,
        forall|w: int| 0 <= w < workers ==> (#[trigger] streams@[w])@.len()
            == width * rows_of_worker(height as int, workers as int, w).len(),
    ensures
        image@.len() == height * width,
        forall|q: int| 0 <= q < image@.len() ==> image@[q] == expected_pixel(
            streams@.map_values(|s: Vec<Rgb>| s@),
            height as int,
            width as int,
            workers as int,
            q,
        ),
{
    let ghost views = streams@.map_values(|s: Vec<Rgb>| s@);
    let ghost h = height as int;
    let ghost n = workers as int;
    let mut cursors: Vec<usize> = Vec::new();
    let mut w: usize = 0;
    while w < workers
        invariant
            w <= workers,
            cursors@.len() == w,
            forall|v: int| 0 <= v < w ==> cursors@[v] == 0,
        decreases workers - w,
    {
        cursors.push(0);
        w = w + 1;
    }
    let mut image: Vec<Rgb> = Vec::new();
    let mut row: usize = 0;
    while row < height
        invariant
            0 < workers,
            streams@.len() == workers,
            views == streams@.map_values(|s: Vec<Rgb>| s@),
            h == height,
            n == workers,
            height * width <= usize::MAX,
            forall|v: int| 0 <= v < workers ==> (#[trigger] streams@[v])@.len()
                == width * rows_of_worker(h, n, v).len(),
            row <= height,
            cursors@.len() == workers,
            forall|v: int| 0 <= v < workers ==> #[trigger] cursors@[v]
                == width * rows_before(h, n, v, row as int).len(),
            image@.len() == row * width,
            forall|q: int| 0 <= q < image@.len() ==> image@[q] == expected_pixel(views, h, width as int, n, q),
        decreases height - row,
    {
        let w = row_worker(height, workers, row);
        let start = cursors[w];
        let ghost k = rows_before(h, n, w as int, row as int).len();
        let ghost total = rows_of_worker(h, n, w as int).len();
        proof {
            lemma_rows_before_grow(h, n, w as int, row + 1, h);
            assert(k + 1 <= total);
            assert(width * (k + 1) <= width * total) by (nonlinear_arith)
                requires k + 1 <= total, width >= 0;
            assert(width * (k + 1) == width * k + width) by (nonlinear_arith);
            assert(row * width + width == (row + 1) * width) by (nonlinear_arith);
            assert((row + 1) * width <= height * width) by (nonlinear_arith)
                requires row + 1 <= height, width >= 0;
        }
        let stream = &streams[w];
        let len = stream.len();
        assert(views[w as int] == stream@);
        let mut i: usize = 0;
        while i < width
            invariant
                0 < workers,
                w < workers,
                views == streams@.map_values(|s: Vec<Rgb>| s@),
                streams@.len() == workers,
                *stream == streams@[w as int],
                views[w as int] == stream@,
                len == stream@.len(),
                h == height,
                n == workers,
                row < height,
                w as int == worker_of(h, n, row as int),
                start == width * k,
                start + width <= stream@.len(),
                k == slot_of(h, n, row as int),
                i <= width,
                image@.len() == row * width + i,
                row * width + width <= height * width,
                forall|q: int| 0 <= q < image@.len() ==> image@[q] == expected_pixel(views, h, width as int, n, q),
            decreases width - i,
        {
            image.push(stream[start + i]);
            proof {
                let q = row * width + i;
                lemma_fundamental_div_mod_converse(q, width as int, row as int, i as int);
                assert(start + i == slot_of(h, n, row as int) * width + i) by (nonlinear_arith)
                    requires start == width * k, k == slot_of(h, n, row as int);
            }
            i = i + 1;
        }
        cursors.set(w, start + width);
        proof {
            assert forall|v: int| 0 <= v < workers implies #[trigger] cursors@[v]
                == width * rows_before(h, n, v, row + 1).len() by {
                if v != w {
                    assert(rows_before(h, n, v, row + 1) == rows_before(h, n, v, row as int));
                }
            }
        }
        row = row + 1;
    }
    image
}

/// Puts the image together while the workers still run: it names the worker
/// whose stream holds the next row, takes that row, and is complete once it
/// holds every row.
pub struct Collector {
    height: usize,
    width: usize,
    workers: usize,
    image: Vec<Rgb>,
}

impl Collector {
    pub closed spec fn height_spec(&self) -> nat {
        self.height as nat
    }

    pub closed spec fn width_spec(&self) -> nat {
        self.width as nat
    }

    pub closed spec fn workers_spec(&self) -> nat {
        self.workers as nat
    }

    /// The pixels collected so far, top row first.
    pub closed spec fn image_spec(&self) -> Seq<Rgb> {
        self.image@
    }

    /// How many rows have been collected.
    pub open spec fn rows_done(&self) -> nat {
        if self.width_spec() == 0 {
            0
        } else {
            self.image_spec().len() / self.width_spec()
        }
    }

    pub closed spec fn wf(&self) -> bool {
        &&& 0 < self.workers
        &&& self.height * self.width <= usize::MAX
        &&& 0 < self.width
        &&& (self.image@.len() as int) % (self.width as int) == 0
        &&& self.image@.len() <= self.height * self.width
    }

    pub fn new(height: usize, width: usize, workers: usize) -> (r: Self)
        requires
            0 < workers,
            0 < width,
            height * width <= usize::MAX,
        ensures
            r.wf(),
            r.height_spec() == height,
            r.width_spec() == width,
            r.workers_spec() == workers,
            r.image_spec() == Seq::<Rgb>::empty(),
    {
        let c = Collector { height, width, workers, image: Vec::new() };
        proof {
            vstd::arithmetic::div_mod::lemma_small_mod(0, width as nat);
        }
        c
    }

    /// The worker whose stream holds the next row, or `None` once every row
    /// has been collected.
    pub fn next_worker(&self) -> (r: Option<usize>)
        requires
            self.wf(),
        ensures
            self.rows_done() <= self.height_spec(),
            r is None <==> self.rows_done() == self.height_spec(),
            r matches Some(w) ==> w < self.workers_spec() && w == worker_of(
                self.height_spec() as int,
                self.workers_spec() as int,
                self.rows_done() as int,
            ),
    {
        let done = self.image.len() / self.width;
        proof {
            let w = self.width as int;
            vstd::arithmetic::div_mod::lemma_fundamental_div_mod(self.image@.len() as int, w);
            let len = self.image@.len() as int;
            assert(done * w <= self.height * w) by (nonlinear_arith)
                requires len == w * done + len % w, len % w >= 0, len <= self.height * w;
            assert(done <= self.height) by (nonlinear_arith)
                requires done * w <= self.height * w, w > 0;
        }
        if done < self.height {
            Some(row_worker(self.height, self.workers, done))
        } else {
            None
        }
    }

    /// Takes the next row, `width` pixels read from the stream of the worker
    /// that `next_worker` named.
    pub fn accept_row(&mut self, pixels: &Vec<Rgb>)
        requires
            old(self).wf(),
            old(self).rows_done() < old(self).height_spec(),
            pixels@.len() == old(self).width_spec(),
        ensures
            final(self).wf(),
            final(self).height_spec() == old(self).height_spec(),
            final(self).width_spec() == old(self).width_spec(),
            final(self).workers_spec() == old(self).workers_spec(),
            final(self).image_spec() == old(self).image_spec() + pixels@,
            final(self).rows_done() == old(self).rows_done() + 1,
    {
        let ghost w = self.width as int;
        let ghost before = self.image@.len() as int;
        proof {
            vstd::arithmetic::div_mod::lemma_fundamental_div_mod(before, w);
            let d = before / w;
            assert((d + 1) * w <= self.height * w) by (nonlinear_arith)
                requires d + 1 <= self.height, w > 0;
            assert(d * w + w == (d + 1) * w) by (nonlinear_arith);
            lemma_fundamental_div_mod_converse(before + w, w, d + 1, 0);
        }
        let mut i: usize = 0;
        while i < pixels.len()
            invariant
                i <= pixels@.len(),
                pixels@.len() == w,
                self.image@ == old(self).image@ + pixels@.subrange(0, i as int),
                self.height == old(self).height,
                self.width == old(self).width,
                self.workers == old(self).workers,
            decreases pixels@.len() - i,
        {
            self.image.push(pixels[i]);
            proof {
                assert(self.image@ =~= old(self).image@ + pixels@.subrange(0, i + 1));
            }
            i = i + 1;
        }
        assert(pixels@.subrange(0, w) =~= pixels@);
    }

    pub fn is_complete(&self) -> (r: bool)
        requires
            self.wf(),
        ensures
            r == (self.rows_done() == self.height_spec()),
    {
        self.next_worker().is_none()
    }

    /// The image collected so far.
    pub fn into_image(self) -> (r: Vec<Rgb>)
        ensures
            r@ == self.image_spec(),
    {
        self.image
    }
}

} // verus!

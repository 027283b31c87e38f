use vstd::prelude::*;
use vstd::string::*;

verus! {

/// The largest program image accepted, in bytes.
pub const MAX_IMAGE_SIZE: usize = 5 * 1024 * 1024;

pub const DEFAULT_PAGE: u64 = 1;

pub const DEFAULT_PAGE_LIMIT: u64 = 20;

pub const MAX_PAGE_LIMIT: u64 = 100;

pub const S3_URL_SCHEME: &'static str = "https://";

pub const S3_URL_HOST: &'static str = ".s3.eu-central-1.amazonaws.com/";

/// Where the objects of `bucket` are served from.
pub open spec fn s3_url_prefix(bucket: Seq<char>) -> Seq<char> {
    S3_URL_SCHEME@ + bucket + S3_URL_HOST@
}

/// The public URL of an uploaded object.
pub fn s3_object_url(bucket: &str, key: &str) -> (r: String)
    ensures
        r@ == s3_url_prefix(bucket@) + key@,
{
    let mut url = S3_URL_SCHEME.to_owned();
    url.append(bucket);
    url.append(S3_URL_HOST);
    url.append(key);
    url
}

/// Whether `p` is a prefix of `s`, character by character.
fn starts_with(s: &str, p: &str) -> (r: bool)
    ensures
        r == p@.is_prefix_of(s@),
{
    let n = s.unicode_len();
    let m = p.unicode_len();
    if m > n {
        return false;
    }
    let mut i: usize = 0;
    while i < m
        invariant
            n == s@.len(),
            m == p@.len(),
            m <= n,
            i <= m,
            forall|j: int| 0 <= j < i ==> s@[j] == p@[j],
        decreases m - i,
    {
        if s.get_char(i) != p.get_char(i) {
            assert(s@.subrange(0, m as int)[i as int] != p@[i as int]);
            return false;
        }
        i = i + 1;
    }
    assert(p@ =~= s@.subrange(0, m as int));
    true
}

/// The object key inside a URL of `bucket`, or `None` for a URL that does
/// not point into the bucket.
pub fn extract_s3_key_from_url(url: &str, bucket: &str) -> (r: Option<String>)
    ensures
        match r {
            Some(key) => s3_url_prefix(bucket@).is_prefix_of(url@)
                && key@ == url@.subrange(s3_url_prefix(bucket@).len() as int, url@.len() as int),
            None => !s3_url_prefix(bucket@).is_prefix_of(url@),
        },
{
    let mut prefix = S3_URL_SCHEME.to_owned();
    prefix.append(bucket);
    prefix.append(S3_URL_HOST);
    if starts_with(url, prefix.as_str()) {
        let from = prefix.as_str().unicode_len();
        let to = url.unicode_len();
        Some(url.substring_char(from, to).to_owned())
    } else {
        None
    }
}

/// The key of an object URL of a bucket is recovered from the URL.
pub proof fn law_object_url_round_trip(bucket: Seq<char>, key: Seq<char>)
    ensures
        s3_url_prefix(bucket).is_prefix_of(s3_url_prefix(bucket) + key),
        (s3_url_prefix(bucket) + key).subrange(s3_url_prefix(bucket).len() as int, (s3_url_prefix(bucket) + key).len() as int)
            == key,
{
    let p = s3_url_prefix(bucket);
    assert((p + key).subrange(0, p.len() as int) =~= p);
    assert((p + key).subrange(p.len() as int, (p + key).len() as int) =~= key);
}

/// The file extension for an accepted image type.
pub fn image_extension(content_type: &str) -> (r: Option<&'static str>)
    ensures
        content_type@ == "image/jpeg"@ ==> r == Some("jpg"),
        content_type@ == "image/png"@ ==> r == Some("png"),
        content_type@ == "image/webp"@ ==> r == Some("webp"),
        content_type@ != "image/jpeg"@ && content_type@ != "image/png"@ && content_type@ != "image/webp"@ ==> r
            is None,
{
    proof {
        reveal_strlit("image/jpeg");
        reveal_strlit("image/png");
        reveal_strlit("image/webp");
        assert("image/jpeg"@[6] != "image/png"@[6]);
        assert("image/jpeg"@[6] != "image/webp"@[6]);
        assert("image/png"@[6] != "image/webp"@[6]);
    }
    let t = content_type.to_owned();
    if t == "image/jpeg".to_owned() {
        Some("jpg")
    } else if t == "image/png".to_owned() {
        Some("png")
    } else if t == "image/webp".to_owned() {
        Some("webp")
    } else {
        None
    }
}

/// Whether an upload of `len` bytes is within the image size limit.
pub fn image_size_allowed(len: usize) -> (r: bool)
    ensures
        r == (len <= MAX_IMAGE_SIZE),
{
    len <= MAX_IMAGE_SIZE
}

/// Search and paging parameters of a catalog listing.
#[derive(Debug)]
pub struct ExerciseQueryParams {
    pub search: Option<String>,
    pub page: Option<u64>,
    pub limit: Option<u64>,
}

/// The page of a listing to return: page number (from one), page size,
/// and how many entries precede it.
#[derive(Clone, Copy, Debug, PartialEq, Eq, Structural)]
pub struct PageWindow {
    pub page: u64,
    pub limit: u64,
    pub skip: u64,
}

pub open spec fn requested_page(page: Option<u64>) -> u64 {
    match page {
        Some(p) => if p < 1 { 1 } else { p },
        None => DEFAULT_PAGE,
    }
}

pub open spec fn requested_limit(limit: Option<u64>) -> u64 {
    match limit {
        Some(l) => if l > MAX_PAGE_LIMIT { MAX_PAGE_LIMIT } else { l },
        None => DEFAULT_PAGE_LIMIT,
    }
}

/// The page is at least one, the size at most the maximum; the offset is
/// `(page - 1) * limit`, held at the largest signed 64-bit value.
pub fn page_window(page: Option<u64>, limit: Option<u64>) -> (r: PageWindow)
    ensures
        r.page == requested_page(page),
        r.limit == requested_limit(limit),
        r.skip == if (r.page - 1) * r.limit > i64::MAX { i64::MAX as int } else { (r.page - 1) * r.limit },
{
    let p: u64 = match page {
        Some(p) => if p < 1 { 1 } else { p },
        None => DEFAULT_PAGE,
    };
    let l: u64 = match limit {
        Some(l) => if l > MAX_PAGE_LIMIT { MAX_PAGE_LIMIT } else { l },
        None => DEFAULT_PAGE_LIMIT,
    };
    let before = p - 1;
    let skip: u64 = if l == 0 {
        0
    } else if before > (i64::MAX as u64) / l {
        assert(before * l > i64::MAX) by (nonlinear_arith)
            requires
                before > (i64::MAX as u64) / l,
                l > 0,
        ;
        i64::MAX as u64
    } else {
        assert(before * l <= i64::MAX) by (nonlinear_arith)
            requires
                before <= (i64::MAX as u64) / l,
                l > 0,
        ;
        before * l
    };
    PageWindow { page: p, limit: l, skip }
}

/// The paging window of a catalog query.
pub fn query_window(params: &ExerciseQueryParams) -> (r: PageWindow)
    ensures
        r.page == requested_page(params.page),
        r.limit == requested_limit(params.limit),
{
    page_window(params.page, params.limit)
}

/// The number of pages of `limit` entries that `total` entries fill: none
/// for no entries, and the largest count for a page size of zero.
pub open spec fn page_count(total: u64, limit: u64) -> int {
    if total == 0 {
        0
    } else if limit == 0 {
        u64::MAX as int
    } else if total % limit == 0 {
        (total / limit) as int
    } else {
        total / limit + 1
    }
}

pub fn total_pages(total: u64, limit: u64) -> (r: u64)
    ensures
        r == page_count(total, limit),
{
    if total == 0 {
        0
    } else if limit == 0 {
        u64::MAX
    } else if total % limit == 0 {
        total / limit
    } else {
        assert(total / limit < u64::MAX) by (nonlinear_arith)
            requires
                limit > 0,
                total % limit != 0,
                total <= u64::MAX,
        ;
        total / limit + 1
    }
}

/// A run of consecutive exercises that belong to one workout.
#[derive(Clone, Copy, Debug, PartialEq, Eq, Structural)]
pub struct WorkoutRun {
    pub workout_number: i32,
    pub count: usize,
}

/// The workout numbers that a list of runs stands for, in order.
pub open spec fn expand_runs(runs: Seq<WorkoutRun>) -> Seq<i32>
    decreases runs.len(),
{
    if runs.len() == 0 {
        Seq::empty()
    } else {
        let last = runs.last();
        expand_runs(runs.drop_last()) + Seq::new(last.count as nat, |k: int| last.workout_number)
    }
}

/// Runs are non-empty and neighbouring runs belong to different workouts.
pub open spec fn runs_maximal(runs: Seq<WorkoutRun>) -> bool {
    &&& forall|i: int| 0 <= i < runs.len() ==> #[trigger] runs[i].count >= 1
    &&& forall|i: int| 0 <= i < runs.len() - 1 ==> #[trigger] runs[i].workout_number != runs[i + 1].workout_number
}

proof fn lemma_expand_push(runs: Seq<WorkoutRun>, run: WorkoutRun)
    ensures
        expand_runs(runs.push(run)) == expand_runs(runs) + Seq::new(run.count as nat, |k: int| run.workout_number),
{
    assert(runs.push(run).drop_last() =~= runs);
}

proof fn lemma_expand_grow(runs: Seq<WorkoutRun>)
    requires
        runs.len() > 0,
    ensures
        ({
            let last = runs.last();
            let grown = runs.update(runs.len() - 1, WorkoutRun { workout_number: last.workout_number, count: (last.count + 1) as usize });
            last.count + 1 <= usize::MAX ==> expand_runs(grown) == expand_runs(runs).push(last.workout_number)
        }),
{
    let last = runs.last();
    let grown = runs.update(runs.len() - 1, WorkoutRun { workout_number: last.workout_number, count: (last.count + 1) as usize });
    if last.count + 1 <= usize::MAX {
        assert(grown.drop_last() =~= runs.drop_last());
        let f = |k: int| last.workout_number;
        assert(Seq::new((last.count + 1) as nat, f) =~= Seq::new(last.count as nat, f).push(last.workout_number));
        assert(expand_runs(grown) =~= expand_runs(runs).push(last.workout_number));
    }
}

proof fn lemma_expand_len(runs: Seq<WorkoutRun>)
    ensures
        runs.len() > 0 ==> expand_runs(runs).len() >= runs.last().count,
    decreases runs.len(),
{
}

/// Groups a week's exercises, ordered by workout, into runs of one workout
/// each, keeping their order.
pub fn group_workouts(numbers: &Vec<i32>) -> (r: Vec<WorkoutRun>)
    ensures
        expand_runs(r@) == numbers@,
        runs_maximal(r@),
{
    let mut runs: Vec<WorkoutRun> = Vec::new();
    let mut i: usize = 0;
    while i < numbers.len()
        invariant
            i <= numbers@.len(),
            expand_runs(runs@) == numbers@.subrange(0, i as int),
            runs_maximal(runs@),
        decreases numbers@.len() - i,
    {
        let x = numbers[i];
        let n = runs.len();
        proof {
            lemma_expand_len(runs@);
        }
        if n > 0 && runs[n - 1].workout_number == x {
            let last = runs[n - 1];
            proof {
                lemma_expand_grow(runs@);
            }
            runs.set(n - 1, WorkoutRun { workout_number: x, count: last.count + 1 });
        } else {
            let run = WorkoutRun { workout_number: x, count: 1 };
            proof {
                lemma_expand_push(runs@, run);
                assert(Seq::new(1, |k: int| x) =~= seq![x]);
            }
            runs.push(run);
        }
        assert(numbers@.subrange(0, i + 1) =~= numbers@.subrange(0, i as int).push(x));
        i = i + 1;
    }
    assert(numbers@.subrange(0, numbers@.len() as int) =~= numbers@);
    runs
}

/// The largest of a non-empty sequence of workout numbers.
pub open spec fn seq_max(s: Seq<i32>) -> i32
    decreases s.len(),
{
    if s.len() <= 1 {
        s[0]
    } else if seq_max(s.drop_last()) >= s.last() {
        seq_max(s.drop_last())
    } else {
        s.last()
    }
}

/// After saving exercises with these workout numbers, the program's last
/// workout number becomes their maximum (zero for none) when that exceeds
/// the current one; `None` means it stays.
pub fn raised_last_workout_number(current: i32, numbers: &Vec<i32>) -> (r: Option<i32>)
    ensures
        numbers@.len() == 0 ==> (r == if current < 0 { Some(0i32) } else { None::<i32> }),
        numbers@.len() > 0 ==> (r == if seq_max(numbers@) > current { Some(seq_max(numbers@)) } else { None::<i32> }),
{
    if numbers.len() == 0 {
        return if current < 0 { Some(0) } else { None };
    }
    let mut best: i32 = numbers[0];
    let mut i: usize = 1;
    while i < numbers.len()
        invariant
            1 <= i <= numbers@.len(),
            best == seq_max(numbers@.subrange(0, i as int)),
        decreases numbers@.len() - i,
    {
        let x = numbers[i];
        proof {
            let next = numbers@.subrange(0, i + 1);
            assert(next.drop_last() =~= numbers@.subrange(0, i as int));
        }
        if x > best {
            best = x;
        }
        i = i + 1;
    }
    assert(numbers@.subrange(0, numbers@.len() as int) =~= numbers@);
    if best > current {
        Some(best)
    } else {
        None
    }
}

} // verus!

//! Set-based similarity of two games.
//!
//! Each game carries three lists of names: tags, genres and platforms. A list
//! stands for the set of distinct names in it. Two lists are compared by the
//! Jaccard index of their sets, and the three indices are combined with fixed
//! weights into a score between 0 and 100.
//!
//! All arithmetic is exact: an index is kept as the two cardinalities it is
//! the quotient of, and the score as a fraction of integers.

use vstd::prelude::*;
use vstd::hash_set::StringHashSet;

verus! {

/// The names in `names`, each as its sequence of characters.
pub open spec fn names_of(names: Seq<String>) -> Seq<Seq<char>> {
    names.map_values(|name: String| name@)
}

/// The set of distinct names in `names`.
pub open spec fn name_set(names: Seq<String>) -> Set<Seq<char>> {
    names_of(names).to_set()
}

/// The Jaccard index of two sets, as the cardinalities of their intersection
/// and of their union.
///
/// The index is the quotient `intersection / union`. Where the union is
/// empty, that is where both sets are empty, the index is defined as 0.
pub struct JaccardIndex {
    pub intersection: nat,
    pub union: nat,
}

impl JaccardIndex {
    /// The index of the sets `a` and `b`.
    pub open spec fn of(a: Set<Seq<char>>, b: Set<Seq<char>>) -> JaccardIndex {
        JaccardIndex { intersection: a.intersect(b).len(), union: a.union(b).len() }
    }

    /// The intersection is never larger than the union.
    pub open spec fn wf(self) -> bool {
        self.intersection <= self.union
    }

    /// Numerator of the index as a fraction.
    pub open spec fn numerator(self) -> int {
        self.intersection as int
    }

    /// Denominator of the index as a fraction: the cardinality of the union,
    /// or 1 where the union is empty, so that the index of two empty sets is
    /// `0 / 1`.
    pub open spec fn denominator(self) -> int {
        if self.union == 0 {
            1
        } else {
            self.union as int
        }
    }

    /// The index is exactly 1.
    pub open spec fn is_one(self) -> bool {
        self.numerator() == self.denominator()
    }

    /// The index is exactly 0.
    pub open spec fn is_zero(self) -> bool {
        self.numerator() == 0
    }
}

/// A computed Jaccard index: the number of names that two lists share and the
/// number of distinct names in both together.
#[derive(Clone, Copy, Debug, PartialEq, Eq)]
pub struct Jaccard {
    pub intersection: usize,
    pub union: usize,
}

impl View for Jaccard {
    type V = JaccardIndex;

    open spec fn view(&self) -> JaccardIndex {
        JaccardIndex { intersection: self.intersection as nat, union: self.union as nat }
    }
}

/// Weight of the tag index in the score, in hundredths.
pub const TAG_WEIGHT: u128 = 60;

/// Weight of the genre index in the score, in hundredths.
pub const GENRE_WEIGHT: u128 = 35;

/// Weight of the platform index in the score, in hundredths.
pub const PLATFORM_WEIGHT: u128 = 5;

/// The largest score: the sum of the three weights.
pub const MAX_SCORE: u128 = 100;

/// The similarity of two games: the Jaccard indices of their tags, of their
/// genres and of their platforms.
///
/// The score is `60 * tags + 35 * genres + 5 * platforms`, each index taken
/// as a number between 0 and 1. It is given as the fraction
/// `score_numerator() / score_denominator()`, whose denominator is the
/// product of the three indices' denominators.
pub struct SimilarityScore {
    pub tags: JaccardIndex,
    pub genres: JaccardIndex,
    pub platforms: JaccardIndex,
}

impl SimilarityScore {
    /// The similarity of a game with the names `tags1`, `genres1` and
    /// `platforms1` and a game with the names `tags2`, `genres2` and
    /// `platforms2`.
    pub open spec fn of(
        tags1: Set<Seq<char>>,
        tags2: Set<Seq<char>>,
        genres1: Set<Seq<char>>,
        genres2: Set<Seq<char>>,
        platforms1: Set<Seq<char>>,
        platforms2: Set<Seq<char>>,
    ) -> SimilarityScore {
        SimilarityScore {
            tags: JaccardIndex::of(tags1, tags2),
            genres: JaccardIndex::of(genres1, genres2),
            platforms: JaccardIndex::of(platforms1, platforms2),
        }
    }

    /// Each of the three indices is well formed.
    pub open spec fn wf(self) -> bool {
        &&& self.tags.wf()
        &&& self.genres.wf()
        &&& self.platforms.wf()
    }

    /// What the tags add to the numerator of the score.
    pub open spec fn tag_term(self) -> int {
        TAG_WEIGHT * self.tags.numerator() * self.genres.denominator()
            * self.platforms.denominator()
    }

    /// What the genres add to the numerator of the score.
    pub open spec fn genre_term(self) -> int {
        GENRE_WEIGHT * self.genres.numerator() * self.tags.denominator()
            * self.platforms.denominator()
    }

    /// What the platforms add to the numerator of the score.
    pub open spec fn platform_term(self) -> int {
        PLATFORM_WEIGHT * self.platforms.numerator() * self.tags.denominator()
            * self.genres.denominator()
    }

    /// Numerator of the score.
    pub open spec fn score_numerator(self) -> int {
        self.tag_term() + self.genre_term() + self.platform_term()
    }

    /// Denominator of the score.
    pub open spec fn score_denominator(self) -> int {
        self.tags.denominator() * self.genres.denominator() * self.platforms.denominator()
    }
}

/// A computed similarity: the three Jaccard indices of two games.
#[derive(Clone, Copy, Debug, PartialEq, Eq)]
pub struct Similarity {
    pub tags: Jaccard,
    pub genres: Jaccard,
    pub platforms: Jaccard,
}

impl View for Similarity {
    type V = SimilarityScore;

    open spec fn view(&self) -> SimilarityScore {
        SimilarityScore { tags: self.tags@, genres: self.genres@, platforms: self.platforms@ }
    }
}

/// A non-negative fraction of two integers.
#[derive(Clone, Copy, Debug, PartialEq, Eq)]
pub struct Fraction {
    pub numerator: u128,
    pub denominator: u128,
}

/// Collects the distinct names of `names` into a hash set.
fn collect_names(names: &Vec<String>) -> (set: StringHashSet)
    ensures
        set@ == name_set(names@),
        set@.finite(),
{
    let mut set = StringHashSet::new();
    insert_names(&mut set, names);
    set
}

/// Adds the distinct names of `names` to `set`.
fn insert_names(set: &mut StringHashSet, names: &Vec<String>)
    requires
        old(set)@.finite(),
    ensures
        final(set)@ == old(set)@.union(name_set(names@)),
        final(set)@.finite(),
{
    let mut i: usize = 0;
    while i < names.len()
        invariant
            i <= names.len(),
            set@ == old(set)@.union(name_set(names@.take(i as int))),
            set@.finite(),
        decreases names.len() - i,
    {
        proof {
            lemma_name_set_take_next(names@, i as int);
        }
        set.insert(names[i].clone());
        i += 1;
    }
    assert(names@.take(names.len() as int) == names@);
}

/// Collects the distinct names of `names` that `other` holds too.
fn collect_shared_names(names: &Vec<String>, other: &StringHashSet) -> (set: StringHashSet)
    ensures
        set@ == name_set(names@).intersect(other@),
        set@.finite(),
{
    let mut set = StringHashSet::new();
    let mut i: usize = 0;
    while i < names.len()
        invariant
            i <= names.len(),
            set@ == name_set(names@.take(i as int)).intersect(other@),
            set@.finite(),
        decreases names.len() - i,
    {
        proof {
            lemma_name_set_take_next(names@, i as int);
        }
        if other.contains(names[i].as_str()) {
            set.insert(names[i].clone());
        }
        i += 1;
    }
    assert(names@.take(names.len() as int) == names@);
    set
}

/// The Jaccard index of the two lists of names `tags1` and `tags2`, each
/// taken as the set of its distinct names.
///
/// The result holds the number of names that occur in both lists and the
/// number of names that occur in either. Where both lists are empty, both
/// numbers are 0 and the index counts as 0.
pub fn calculate_jaccard_index(tags1: &Vec<String>, tags2: &Vec<String>) -> (index: Jaccard)
    ensures
        index@ == JaccardIndex::of(name_set(tags1@), name_set(tags2@)),
        index@.wf(),
{
    let set2 = collect_names(tags2);
    let intersection = collect_shared_names(tags1, &set2);
    let mut union = collect_names(tags1);
    insert_names(&mut union, tags2);
    proof {
        lemma_jaccard_index_wf(name_set(tags1@), name_set(tags2@));
    }
    Jaccard { intersection: intersection.len(), union: union.len() }
}

/// Of two finite sets the intersection has at most as many elements as the
/// union.
pub proof fn lemma_jaccard_index_wf(a: Set<Seq<char>>, b: Set<Seq<char>>)
    requires
        a.finite(),
        b.finite(),
    ensures
        JaccardIndex::of(a, b).wf(),
{
    vstd::set_lib::lemma_len_subset(a.intersect(b), a.union(b));
}

/// The similarity of two games from their tags, genres and platforms.
///
/// Each pair of lists is compared by its Jaccard index. The score that the
/// three indices give, with the weights 0.60, 0.35 and 0.05 and scaled to the
/// range from 0 to 100, is `score_numerator() / score_denominator()` of the
/// result's view; [`Similarity::score`] computes it.
pub fn enhanced_similarity(
    tags1: &Vec<String>,
    tags2: &Vec<String>,
    genres1: &Vec<String>,
    genres2: &Vec<String>,
    platforms1: &Vec<String>,
    platforms2: &Vec<String>,
) -> (similarity: Similarity)
    ensures
        similarity@ == SimilarityScore::of(
            name_set(tags1@),
            name_set(tags2@),
            name_set(genres1@),
            name_set(genres2@),
            name_set(platforms1@),
            name_set(platforms2@),
        ),
        similarity@.wf(),
{
    let tags = calculate_jaccard_index(tags1, tags2);
    let genres = calculate_jaccard_index(genres1, genres2);
    let platforms = calculate_jaccard_index(platforms1, platforms2);
    Similarity { tags, genres, platforms }
}

/// The product `a * b * c`, where it fits in 128 bits.
fn checked_product(a: u128, b: u128, c: u128) -> (product: Option<u128>)
    requires
        b >= 1,
        c >= 1,
    ensures
        match product {
            Some(p) => p == a * b * c,
            None => a * b * c > u128::MAX,
        },
{
    match a.checked_mul(b) {
        Some(ab) => ab.checked_mul(c),
        None => {
            assert(a * b * c >= a * b) by (nonlinear_arith)
                requires
                    c >= 1,
                    a * b >= 0,
            ;
            None
        },
    }
}

impl Jaccard {
    /// Numerator of the index as a fraction: the size of the intersection.
    pub fn numerator(&self) -> (n: usize)
        ensures
            n == self@.numerator(),
    {
        self.intersection
    }

    /// Denominator of the index as a fraction: the size of the union, or 1
    /// where the union is empty.
    pub fn denominator(&self) -> (d: usize)
        ensures
            d == self@.denominator(),
            d >= 1,
    {
        if self.union == 0 {
            1
        } else {
            self.union
        }
    }
}

impl Similarity {
    /// The score as a fraction, where its numerator and its denominator fit
    /// in 128 bits each; `None` where one of them does not.
    ///
    /// The fraction is not reduced: its denominator is the product of the
    /// three indices' denominators. Of three well-formed indices the score
    /// is at most 100, and it is there unless 100 times the denominator is
    /// too large.
    pub fn score(&self) -> (score: Option<Fraction>)
        ensures
            match score {
                Some(fraction) => {
                    &&& fraction.numerator == self@.score_numerator()
                    &&& fraction.denominator == self@.score_denominator()
                },
                None => {
                    ||| self@.score_numerator() > u128::MAX
                    ||| self@.score_denominator() > u128::MAX
                },
            },
            self@.wf() ==> match score {
                Some(fraction) => {
                    &&& fraction.denominator > 0
                    &&& fraction.numerator <= MAX_SCORE * fraction.denominator
                },
                None => MAX_SCORE * self@.score_denominator() > u128::MAX,
            },
    {
        proof {
            if self@.wf() {
                lemma_score_in_range(self@);
            }
        }
        let nt = self.tags.numerator() as u128;
        let ng = self.genres.numerator() as u128;
        let np = self.platforms.numerator() as u128;
        let dt = self.tags.denominator() as u128;
        let dg = self.genres.denominator() as u128;
        let dp = self.platforms.denominator() as u128;
        let tag_term = checked_product(TAG_WEIGHT * nt, dg, dp);
        let genre_term = checked_product(GENRE_WEIGHT * ng, dt, dp);
        let platform_term = checked_product(PLATFORM_WEIGHT * np, dt, dg);
        let denominator = checked_product(dt, dg, dp);
        match (tag_term, genre_term, platform_term, denominator) {
            (Some(t), Some(g), Some(p), Some(denominator)) => {
                match t.checked_add(g) {
                    Some(tg) => match tg.checked_add(p) {
                        Some(numerator) => Some(Fraction { numerator, denominator }),
                        None => None,
                    },
                    None => None,
                }
            },
            _ => None,
        }
    }
}

/// The Jaccard index of a non-empty finite set with itself is 1.
///
/// The empty set is left out: its index with itself is 0, as the index of
/// any two sets with an empty union.
pub proof fn lemma_jaccard_of_set_with_itself(a: Set<Seq<char>>)
    requires
        a.finite(),
        !a.is_empty(),
    ensures
        JaccardIndex::of(a, a).is_one(),
{
    assert(a.intersect(a) =~= a);
    assert(a.union(a) =~= a);
    if a.len() == 0 {
        a.lemma_len0_is_empty();
    }
}

/// The Jaccard index of two sets that share no element is 0.
pub proof fn lemma_jaccard_of_disjoint_sets(a: Set<Seq<char>>, b: Set<Seq<char>>)
    requires
        a.disjoint(b),
    ensures
        JaccardIndex::of(a, b).is_zero(),
{
    assert(a.intersect(b) =~= Set::<Seq<char>>::empty());
}

/// The Jaccard index does not depend on the order of the two sets.
pub proof fn lemma_jaccard_symmetric(a: Set<Seq<char>>, b: Set<Seq<char>>)
    ensures
        JaccardIndex::of(a, b) == JaccardIndex::of(b, a),
{
    assert(a.intersect(b) =~= b.intersect(a));
    assert(a.union(b) =~= b.union(a));
}

/// Swapping the two games leaves the similarity, and with it the score,
/// unchanged.
pub proof fn lemma_similarity_symmetric(
    tags1: Set<Seq<char>>,
    tags2: Set<Seq<char>>,
    genres1: Set<Seq<char>>,
    genres2: Set<Seq<char>>,
    platforms1: Set<Seq<char>>,
    platforms2: Set<Seq<char>>,
)
    ensures
        SimilarityScore::of(tags1, tags2, genres1, genres2, platforms1, platforms2)
            == SimilarityScore::of(tags2, tags1, genres2, genres1, platforms2, platforms1),
        SimilarityScore::of(tags1, tags2, genres1, genres2, platforms1, platforms2).score_numerator()
            == SimilarityScore::of(
            tags2,
            tags1,
            genres2,
            genres1,
            platforms2,
            platforms1,
        ).score_numerator(),
        SimilarityScore::of(
            tags1,
            tags2,
            genres1,
            genres2,
            platforms1,
            platforms2,
        ).score_denominator() == SimilarityScore::of(
            tags2,
            tags1,
            genres2,
            genres1,
            platforms2,
            platforms1,
        ).score_denominator(),
{
    lemma_jaccard_symmetric(tags1, tags2);
    lemma_jaccard_symmetric(genres1, genres2);
    lemma_jaccard_symmetric(platforms1, platforms2);
}

/// The score of a well-formed similarity lies between 0 and 100: its
/// denominator is positive and its numerator is at least 0 and at most 100
/// times the denominator.
pub proof fn lemma_score_in_range(similarity: SimilarityScore)
    requires
        similarity.wf(),
    ensures
        similarity.score_denominator() > 0,
        0 <= similarity.score_numerator() <= MAX_SCORE * similarity.score_denominator(),
{
    let nt = similarity.tags.numerator();
    let ng = similarity.genres.numerator();
    let np = similarity.platforms.numerator();
    let dt = similarity.tags.denominator();
    let dg = similarity.genres.denominator();
    let dp = similarity.platforms.denominator();
    assert(dt * dg * dp > 0) by (nonlinear_arith)
        requires
            dt >= 1,
            dg >= 1,
            dp >= 1,
    ;
    assert(0 <= 60 * nt * dg * dp <= 60 * (dt * dg * dp)) by (nonlinear_arith)
        requires
            0 <= nt <= dt,
            dg >= 1,
            dp >= 1,
    ;
    assert(0 <= 35 * ng * dt * dp <= 35 * (dt * dg * dp)) by (nonlinear_arith)
        requires
            0 <= ng <= dg,
            dt >= 1,
            dp >= 1,
    ;
    assert(0 <= 5 * np * dt * dg <= 5 * (dt * dg * dp)) by (nonlinear_arith)
        requires
            0 <= np <= dp,
            dt >= 1,
            dg >= 1,
    ;
}

/// The similarity of any two games with finitely many names is well formed,
/// so that its score lies between 0 and 100.
pub proof fn lemma_similarity_in_range(
    tags1: Set<Seq<char>>,
    tags2: Set<Seq<char>>,
    genres1: Set<Seq<char>>,
    genres2: Set<Seq<char>>,
    platforms1: Set<Seq<char>>,
    platforms2: Set<Seq<char>>,
)
    requires
        tags1.finite(),
        tags2.finite(),
        genres1.finite(),
        genres2.finite(),
        platforms1.finite(),
        platforms2.finite(),
    ensures
        SimilarityScore::of(tags1, tags2, genres1, genres2, platforms1, platforms2).wf(),
        SimilarityScore::of(
            tags1,
            tags2,
            genres1,
            genres2,
            platforms1,
            platforms2,
        ).score_denominator() > 0,
        0 <= SimilarityScore::of(
            tags1,
            tags2,
            genres1,
            genres2,
            platforms1,
            platforms2,
        ).score_numerator() <= MAX_SCORE * SimilarityScore::of(
            tags1,
            tags2,
            genres1,
            genres2,
            platforms1,
            platforms2,
        ).score_denominator(),
{
    lemma_jaccard_index_wf(tags1, tags2);
    lemma_jaccard_index_wf(genres1, genres2);
    lemma_jaccard_index_wf(platforms1, platforms2);
    lemma_score_in_range(
        SimilarityScore::of(tags1, tags2, genres1, genres2, platforms1, platforms2),
    );
}

/// The names among the first `i + 1` entries are those among the first `i`,
/// and the entry at `i`.
proof fn lemma_name_set_take_next(names: Seq<String>, i: int)
    requires
        0 <= i < names.len(),
    ensures
        name_set(names.take(i + 1)) == name_set(names.take(i)).insert(names[i]@),
{
    let before = names_of(names.take(i));
    let after = names_of(names.take(i + 1));
    assert forall|name: Seq<char>| after.to_set().contains(name) <==> before.to_set().insert(
        names[i]@,
    ).contains(name) by {
        if after.contains(name) {
            let k = choose|k: int| 0 <= k < after.len() && after[k] == name;
            if k < i {
                assert(before[k] == name);
            }
        }
        if before.contains(name) {
            let k = choose|k: int| 0 <= k < before.len() && before[k] == name;
            assert(after[k] == name);
        }
        if name == names[i]@ {
            assert(after[i] == name);
        }
    }
}

} // verus!

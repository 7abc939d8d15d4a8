//! The selection engine: narrows a configuration and the fetched
//! candidate lists down to one backdrop, step by step.  Each random draw
//! is uniform over the candidates of its step.

use vstd::prelude::*;

use crate::config::Config;
use crate::config::ListType;
use crate::numfmt::dec_digits;
use crate::numfmt::u64_to_string;
use crate::rng::random_below;
use crate::tmdb::Image;
use crate::tmdb::Kind;
use crate::tmdb::Movie;
use crate::tmdb::TVShow;

verus! {

/// Widescreen heuristic: only backdrops whose aspect ratio exceeds
/// 1.75 — carried in thousandths — are usable as wallpapers.
pub const ASPECT_RATIO_MILLI_FLOOR: u32 = 1750;

/// One title either kind of list endpoint returned.
pub struct Title {
    pub id: i32,
    pub name: String,
    pub kind: Kind,
}

impl Movie {
    /// The list-agnostic view of a movie entry.
    pub fn to_title(self) -> (t: Title)
        ensures
            t.id == self.id,
            t.name == self.title,
            t.kind == Kind::Movie,
    {
        Title { id: self.id, name: self.title, kind: Kind::Movie }
    }
}

impl TVShow {
    /// The list-agnostic view of a TV entry.
    pub fn to_title(self) -> (t: Title)
        ensures
            t.id == self.id,
            t.name == self.name,
            t.kind == Kind::Tv,
    {
        Title { id: self.id, name: self.name, kind: Kind::Tv }
    }
}

/// Turns one page of movie results into titles, keeping order.
pub fn movies_to_titles(movies: Vec<Movie>) -> (r: Vec<Title>)
    ensures
        r@.len() == movies@.len(),
        forall|i: int|
            #![trigger r@[i]]
            0 <= i < r@.len() ==> r@[i].id == movies@[i].id && r@[i].name == movies@[i].title
                && r@[i].kind == Kind::Movie,
{
    let mut rest = movies;
    let ghost orig = rest@;
    let mut out: Vec<Title> = Vec::new();
    while rest.len() > 0
        invariant
            out@.len() + rest@.len() == orig.len(),
            rest@ == orig.subrange(out@.len() as int, orig.len() as int),
            forall|i: int|
                #![trigger out@[i]]
                0 <= i < out@.len() ==> out@[i].id == orig[i].id && out@[i].name == orig[i].title
                    && out@[i].kind == Kind::Movie,
        decreases rest.len(),
    {
        let m = rest.remove(0);
        out.push(m.to_title());
        proof {
            assert(rest@ =~= orig.subrange(out@.len() as int, orig.len() as int));
        }
    }
    out
}

/// Turns one page of TV results into titles, keeping order.
pub fn tv_to_titles(shows: Vec<TVShow>) -> (r: Vec<Title>)
    ensures
        r@.len() == shows@.len(),
        forall|i: int|
            #![trigger r@[i]]
            0 <= i < r@.len() ==> r@[i].id == shows@[i].id && r@[i].name == shows@[i].name
                && r@[i].kind == Kind::Tv,
{
    let mut rest = shows;
    let ghost orig = rest@;
    let mut out: Vec<Title> = Vec::new();
    while rest.len() > 0
        invariant
            out@.len() + rest@.len() == orig.len(),
            rest@ == orig.subrange(out@.len() as int, orig.len() as int),
            forall|i: int|
                #![trigger out@[i]]
                0 <= i < out@.len() ==> out@[i].id == orig[i].id && out@[i].name == orig[i].name
                    && out@[i].kind == Kind::Tv,
        decreases rest.len(),
    {
        let s = rest.remove(0);
        out.push(s.to_title());
        proof {
            assert(rest@ =~= orig.subrange(out@.len() as int, orig.len() as int));
        }
    }
    out
}

/// Both lists were consulted and the chosen one was empty; a terminal
/// "nothing to do" outcome for the run.
pub struct EmptyListError {
    pub kind: Kind,
    pub list_type: ListType,
}

impl EmptyListError {
    pub open spec fn spec_message(self) -> Seq<char> {
        (match self.kind {
            Kind::Movie => "No movies in "@,
            Kind::Tv => "No TV shows in "@,
        }) + self.list_type.spec_name() + "."@
    }

    /// Names the list that came back empty, so the user can adjust the
    /// configuration.
    pub fn message(&self) -> (r: String)
        ensures
            r@ == self.spec_message(),
    {
        let mut r = (match self.kind {
            Kind::Movie => "No movies in ",
            Kind::Tv => "No TV shows in ",
        }).to_owned();
        r.append(self.list_type.name());
        r.append(".");
        r
    }
}

/// No backdrop survived the size and aspect constraints; carries the
/// attempted bounds.
pub struct NoUsableImageError {
    pub width: Option<u32>,
    pub height: Option<u32>,
}

/// A configured bound rendered in decimal; an absent bound reads "any".
pub open spec fn spec_bound_text(bound: Option<u32>) -> Seq<char> {
    match bound {
        Some(v) => dec_digits(v as nat),
        None => "any"@,
    }
}

impl NoUsableImageError {
    pub open spec fn spec_message(self) -> Seq<char> {
        "No usable images found with "@ + spec_bound_text(self.width) + "x"@ + spec_bound_text(
            self.height,
        ) + " resolution and aspect ratio greater than 1.75"@
    }

    /// Cites the attempted width and height, so the user can adjust the
    /// configuration.
    pub fn message(&self) -> (r: String)
        ensures
            r@ == self.spec_message(),
    {
        let mut r = "No usable images found with ".to_owned();
        r.append(bound_text(self.width).as_str());
        r.append("x");
        r.append(bound_text(self.height).as_str());
        r.append(" resolution and aspect ratio greater than 1.75");
        r
    }
}

fn bound_text(bound: Option<u32>) -> (r: String)
    ensures
        r@ == spec_bound_text(bound),
{
    match bound {
        Some(v) => u64_to_string(v as u64),
        None => "any".to_owned(),
    }
}

/// The kinds a configuration enables, movies first.
pub open spec fn spec_enabled_kinds(movies: bool, tv: bool) -> Seq<Kind> {
    if movies && tv {
        seq![Kind::Movie, Kind::Tv]
    } else if movies {
        seq![Kind::Movie]
    } else if tv {
        seq![Kind::Tv]
    } else {
        Seq::empty()
    }
}

pub fn enabled_kinds(movies: bool, tv: bool) -> (r: Vec<Kind>)
    ensures
        r@ == spec_enabled_kinds(movies, tv),
{
    let mut r: Vec<Kind> = Vec::new();
    if movies {
        r.push(Kind::Movie);
    }
    if tv {
        r.push(Kind::Tv);
    }
    proof {
        assert(r@ =~= spec_enabled_kinds(movies, tv));
    }
    r
}

/// Draws one kind uniformly from the enabled set.  A disabled kind is
/// never drawn: with movies off every run selects TV, with TV off every
/// run selects movies.
pub fn choose_kind(config: &Config) -> (k: Kind)
    requires
        config.wf(),
    ensures
        k == Kind::Movie ==> config.movies,
        k == Kind::Tv ==> config.tv,
        !config.movies ==> k == Kind::Tv,
        !config.tv ==> k == Kind::Movie,
{
    let kinds = enabled_kinds(config.movies, config.tv);
    let i = random_below(kinds.len());
    kinds[i]
}

/// Draws one title uniformly from the fetched list; an empty list is the
/// terminal empty-list failure, tagged with what was consulted.
pub fn choose_title(titles: &Vec<Title>, kind: Kind, list_type: ListType) -> (r: Result<
    usize,
    EmptyListError,
>)
    ensures
        r is Ok <==> titles@.len() > 0,
        r matches Ok(i) ==> i < titles@.len(),
        r matches Err(e) ==> e == (EmptyListError { kind, list_type }),
{
    if titles.len() == 0 {
        Err(EmptyListError { kind, list_type })
    } else {
        Ok(random_below(titles.len()))
    }
}

/// The language constraint a run sends with its image listing: the
/// configured language when text-bearing photos are filtered, otherwise
/// none.
pub fn effective_language(config: &Config) -> (r: Option<&String>)
    ensures
        config.filter_photos_with_text ==> (match config.language_of_photos {
            Some(c) => r matches Some(l) && *l == c,
            None => r is None,
        }),
        !config.filter_photos_with_text ==> r is None,
{
    if config.filter_photos_with_text {
        config.language_of_photos.as_ref()
    } else {
        None
    }
}

/// The client-side predicate a backdrop must pass: at least the
/// configured width and height — each applied when set — and an aspect
/// ratio strictly above the widescreen floor.
pub open spec fn spec_usable(img: Image, width: Option<u32>, height: Option<u32>) -> bool {
    &&& (width matches Some(w) ==> img.width >= w)
    &&& (height matches Some(h) ==> img.height >= h)
    &&& img.aspect_ratio_milli > ASPECT_RATIO_MILLI_FLOOR
}

pub fn usable(img: &Image, width: Option<u32>, height: Option<u32>) -> (r: bool)
    ensures
        r == spec_usable(*img, width, height),
{
    let wide_enough = match width {
        Some(w) => img.width >= w,
        None => true,
    };
    let tall_enough = match height {
        Some(h) => img.height >= h,
        None => true,
    };
    wide_enough && tall_enough && img.aspect_ratio_milli > ASPECT_RATIO_MILLI_FLOOR
}

/// The survivors of a backdrop list, in order.
pub open spec fn spec_survivors(s: Seq<Image>, width: Option<u32>, height: Option<u32>) -> Seq<
    Image,
>
    decreases s.len(),
{
    if s.len() == 0 {
        Seq::empty()
    } else if spec_usable(s[0], width, height) {
        seq![s[0]] + spec_survivors(s.drop_first(), width, height)
    } else {
        spec_survivors(s.drop_first(), width, height)
    }
}

/// Every survivor passes the predicate: the filtered set never holds an
/// image below the configured width or height, nor one at or below the
/// aspect-ratio floor.
pub proof fn lemma_survivors_usable(s: Seq<Image>, width: Option<u32>, height: Option<u32>)
    ensures
        forall|j: int|
            0 <= j < spec_survivors(s, width, height).len() ==> spec_usable(
                #[trigger] spec_survivors(s, width, height)[j],
                width,
                height,
            ),
    decreases s.len(),
{
    if s.len() > 0 {
        lemma_survivors_usable(s.drop_first(), width, height);
        let survivors = spec_survivors(s, width, height);
        let tail_survivors = spec_survivors(s.drop_first(), width, height);
        assert forall|j: int| 0 <= j < survivors.len() implies spec_usable(
            survivors[j],
            width,
            height,
        ) by {
            if spec_usable(s[0], width, height) {
                if j > 0 {
                    assert(survivors[j] == tail_survivors[j - 1]);
                }
            } else {
                assert(survivors[j] == tail_survivors[j]);
            }
        }
    }
}

/// Every usable image of the list survives: filtering drops nothing it
/// should keep.
pub proof fn lemma_survivors_complete(s: Seq<Image>, width: Option<u32>, height: Option<u32>)
    ensures
        forall|i: int|
            0 <= i < s.len() && spec_usable(#[trigger] s[i], width, height) ==> spec_survivors(
                s,
                width,
                height,
            ).contains(s[i]),
    decreases s.len(),
{
    if s.len() > 0 {
        lemma_survivors_complete(s.drop_first(), width, height);
        assert forall|i: int|
            0 <= i < s.len() && spec_usable(#[trigger] s[i], width, height) implies spec_survivors(
            s,
            width,
            height,
        ).contains(s[i]) by {
            let survivors = spec_survivors(s, width, height);
            if i == 0 {
                assert(survivors[0] == s[0]);
                assert(survivors.contains(s[0]));
            } else {
                assert(s.drop_first()[i - 1] == s[i]);
                let tail_survivors = spec_survivors(s.drop_first(), width, height);
                assert(tail_survivors.contains(s[i]));
                let k = choose|k: int| 0 <= k < tail_survivors.len() && tail_survivors[k] == s[i];
                if spec_usable(s[0], width, height) {
                    assert(survivors[k + 1] == s[i]);
                } else {
                    assert(survivors[k] == s[i]);
                }
            }
        }
    }
}

/// Applies the predicate to a fetched backdrop list, keeping order.
pub fn filter_backdrops(images: Vec<Image>, width: Option<u32>, height: Option<u32>) -> (r: Vec<
    Image,
>)
    ensures
        r@ == spec_survivors(images@, width, height),
{
    let mut rest = images;
    let ghost orig = rest@;
    let mut out: Vec<Image> = Vec::new();
    proof {
        assert(out@ + spec_survivors(rest@, width, height) =~= spec_survivors(
            orig,
            width,
            height,
        ));
    }
    while rest.len() > 0
        invariant
            spec_survivors(orig, width, height) == out@ + spec_survivors(rest@, width, height),
        decreases rest.len(),
    {
        let ghost before = rest@;
        let img = rest.remove(0);
        proof {
            assert(before.drop_first() =~= rest@);
        }
        if usable(&img, width, height) {
            out.push(img);
        }
        proof {
            assert(out@ + spec_survivors(rest@, width, height) =~= spec_survivors(
                orig,
                width,
                height,
            ));
        }
    }
    proof {
        assert(out@ =~= spec_survivors(orig, width, height));
    }
    out
}

/// Draws one backdrop uniformly from the survivors; an empty survivor
/// set is the terminal no-usable-image failure, tagged with the
/// attempted bounds.
pub fn choose_image(survivors: &Vec<Image>, width: Option<u32>, height: Option<u32>) -> (r: Result<
    usize,
    NoUsableImageError,
>)
    ensures
        r is Ok <==> survivors@.len() > 0,
        r matches Ok(i) ==> i < survivors@.len(),
        r matches Err(e) ==> e == (NoUsableImageError { width, height }),
{
    if survivors.len() == 0 {
        Err(NoUsableImageError { width, height })
    } else {
        Ok(random_below(survivors.len()))
    }
}

/// Draws one title uniformly from the fetched list and hands it out; an
/// empty list is the terminal empty-list failure.
pub fn select_title(titles: Vec<Title>, kind: Kind, list_type: ListType) -> (r: Result<
    Title,
    EmptyListError,
>)
    ensures
        r is Ok <==> titles@.len() > 0,
        r matches Ok(t) ==> titles@.contains(t),
        r matches Err(e) ==> e == (EmptyListError { kind, list_type }),
{
    let mut titles = titles;
    let ghost orig = titles@;
    match choose_title(&titles, kind, list_type) {
        Ok(i) => {
            let t = titles.remove(i);
            proof {
                assert(orig[i as int] == t);
                assert(orig.contains(t));
            }
            Ok(t)
        },
        Err(e) => Err(e),
    }
}

/// Filters a fetched backdrop list and draws one survivor uniformly.
/// The selected image always meets every constraint: the configured
/// bounds and the aspect floor.
pub fn select_backdrop(images: Vec<Image>, width: Option<u32>, height: Option<u32>) -> (r: Result<
    Image,
    NoUsableImageError,
>)
    ensures
        r is Ok <==> spec_survivors(images@, width, height).len() > 0,
        r matches Ok(img) ==> spec_survivors(images@, width, height).contains(img),
        r matches Ok(img) ==> spec_usable(img, width, height),
        r matches Err(e) ==> e == (NoUsableImageError { width, height }),
{
    let ghost all = images@;
    let mut survivors = filter_backdrops(images, width, height);
    match choose_image(&survivors, width, height) {
        Ok(i) => {
            proof {
                lemma_survivors_usable(all, width, height);
            }
            let img = survivors.remove(i);
            proof {
                assert(img == spec_survivors(all, width, height)[i as int]);
                assert(spec_survivors(all, width, height).contains(img));
            }
            Ok(img)
        },
        Err(e) => Err(e),
    }
}

} // verus!

//! Stateless dispatch of a request line to one of the gateway's routes.

use crate::text::chars_of;
use vstd::prelude::*;
use vstd::string::*;

verus! {

/// The request methods that the gateway tells apart.
#[derive(Clone, Copy, Debug, PartialEq, Eq, Structural)]
pub enum Method {
    Get,
    Post,
    Other,
}

/// Which of the store's tile functions a tile route is served from.
#[derive(Clone, Copy, Debug, PartialEq, Eq, Structural)]
pub enum TileLayer {
    /// `/tiles/{z}/{x}/{y}`
    Base,
    /// `/tiles/points/{z}/{x}/{y}`
    Points,
}

/// Where a request goes.
#[derive(Clone, Debug, PartialEq, Eq)]
pub enum Route {
    /// The tile pipeline, with the three coordinate segments as they stand in
    /// the path, not yet validated.
    Tile { layer: TileLayer, zoom: String, column: String, row: String },
    /// The GeoJSON squares handler.
    Squares,
    /// The point-insertion handler.
    AddPoint,
    /// The place-name listing handler.
    Placenames,
    /// The path is a route of the gateway, but not under this method.
    MethodNotAllowed,
    /// Anything else: static asset serving.
    StaticAsset,
}

pub ghost enum RouteView {
    Tile { layer: TileLayer, zoom: Seq<char>, column: Seq<char>, row: Seq<char> },
    Squares,
    AddPoint,
    Placenames,
    MethodNotAllowed,
    StaticAsset,
}

impl View for Route {
    type V = RouteView;

    open spec fn view(&self) -> RouteView {
        match *self {
            Route::Tile { layer, zoom, column, row } => RouteView::Tile {
                layer,
                zoom: zoom@,
                column: column@,
                row: row@,
            },
            Route::Squares => RouteView::Squares,
            Route::AddPoint => RouteView::AddPoint,
            Route::Placenames => RouteView::Placenames,
            Route::MethodNotAllowed => RouteView::MethodNotAllowed,
            Route::StaticAsset => RouteView::StaticAsset,
        }
    }
}

/// The pieces of `s` between its slashes, in order. There is always one
/// more piece than there are slashes, and a piece may be empty.
pub open spec fn split_at_slashes(s: Seq<char>) -> Seq<Seq<char>>
    decreases s.len(),
{
    if s.len() == 0 {
        seq![Seq::<char>::empty()]
    } else {
        let before = split_at_slashes(s.drop_last());
        if s.last() == '/' {
            before.push(Seq::<char>::empty())
        } else {
            before.drop_last().push(before.last().push(s.last()))
        }
    }
}

/// The segments of an absolute path: the pieces between the slashes of what
/// follows its leading slash. `None` where the path has no leading slash.
pub open spec fn path_segments(path: Seq<char>) -> Option<Seq<Seq<char>>> {
    if path.len() > 0 && path[0] == '/' {
        Some(split_at_slashes(path.skip(1)))
    } else {
        None
    }
}

/// The pieces written one after another with a slash between neighbours.
pub open spec fn join_with_slashes(pieces: Seq<Seq<char>>) -> Seq<char>
    decreases pieces.len(),
{
    if pieces.len() == 0 {
        Seq::<char>::empty()
    } else if pieces.len() == 1 {
        pieces[0]
    } else {
        join_with_slashes(pieces.drop_last()) + seq!['/'] + pieces.last()
    }
}

/// Whether no piece holds a slash.
pub open spec fn slash_free(pieces: Seq<Seq<char>>) -> bool {
    forall|k: int, j: int|
        0 <= k < pieces.len() && 0 <= j < pieces[k].len() ==> #[trigger] pieces[k][j] != '/'
}

/// Splitting loses nothing and leaves no slash behind: there is at least one
/// piece, no piece holds a slash, and the pieces joined with slashes are the
/// text that was split.
pub proof fn lemma_split_then_join(s: Seq<char>)
    ensures
        split_at_slashes(s).len() >= 1,
        slash_free(split_at_slashes(s)),
        join_with_slashes(split_at_slashes(s)) == s,
    decreases s.len(),
{
    let pieces = split_at_slashes(s);
    if s.len() == 0 {
        assert(join_with_slashes(pieces) =~= s);
    } else {
        let shorter = s.drop_last();
        let before = split_at_slashes(shorter);
        lemma_split_then_join(shorter);
        assert(s =~= shorter.push(s.last()));
        if s.last() == '/' {
            assert(pieces.drop_last() =~= before);
            assert(join_with_slashes(pieces) =~= shorter + seq!['/'] + Seq::<char>::empty());
            assert(join_with_slashes(pieces) =~= s);
            assert forall|k: int, j: int|
                0 <= k < pieces.len() && 0 <= j < pieces[k].len() implies #[trigger] pieces[k][j]
                != '/' by {
                assert(pieces[k] == before[k]);
            }
        } else {
            let grown = before.last().push(s.last());
            assert(pieces.last() == grown);
            assert(pieces.drop_last() =~= before.drop_last());
            if before.len() == 1 {
                assert(join_with_slashes(pieces) =~= s);
            } else {
                assert(join_with_slashes(before) == join_with_slashes(before.drop_last()) + seq![
                    '/',
                ] + before.last());
                assert(join_with_slashes(pieces) =~= join_with_slashes(before).push(s.last()));
            }
            assert forall|k: int, j: int|
                0 <= k < pieces.len() && 0 <= j < pieces[k].len() implies #[trigger] pieces[k][j]
                != '/' by {
                if k < pieces.len() - 1 {
                    assert(pieces[k] == before[k]);
                } else if j < before.last().len() {
                    assert(pieces[k][j] == before[k][j]);
                }
            }
        }
    }
}

proof fn lemma_split_of_extension(s: Seq<char>, tail: Seq<char>)
    requires
        forall|j: int| 0 <= j < tail.len() ==> tail[j] != '/',
    ensures
        split_at_slashes(s).len() >= 1,
        split_at_slashes(s + tail) == split_at_slashes(s).drop_last().push(
            split_at_slashes(s).last() + tail,
        ),
    decreases tail.len(),
{
    lemma_split_then_join(s);
    let pieces = split_at_slashes(s);
    if tail.len() == 0 {
        assert(s + tail =~= s);
        assert(pieces.last() + tail =~= pieces.last());
        assert(pieces.drop_last().push(pieces.last()) =~= pieces);
    } else {
        let shorter = tail.drop_last();
        lemma_split_of_extension(s, shorter);
        let before = split_at_slashes(s + shorter);
        assert((s + tail).drop_last() =~= s + shorter);
        assert((s + tail).last() == tail.last());
        assert(before.drop_last() =~= pieces.drop_last());
        assert(before.last().push(tail.last()) =~= pieces.last() + tail);
    }
}

/// Splitting undoes joining: pieces that hold no slash, at least one of them,
/// come back from their joined text as they were. With
/// [`lemma_split_then_join`] this makes splitting and joining inverses.
pub proof fn lemma_join_then_split(pieces: Seq<Seq<char>>)
    requires
        pieces.len() >= 1,
        slash_free(pieces),
    ensures
        split_at_slashes(join_with_slashes(pieces)) == pieces,
    decreases pieces.len(),
{
    let nothing = Seq::<char>::empty();
    let last = pieces.last();
    assert forall|j: int| 0 <= j < last.len() implies last[j] != '/' by {
        assert(pieces[pieces.len() - 1][j] != '/');
    }
    if pieces.len() == 1 {
        lemma_split_of_extension(nothing, last);
        assert(nothing + last =~= last);
        assert(split_at_slashes(nothing) =~= seq![nothing]);
        assert(split_at_slashes(last) =~= pieces);
    } else {
        let front = pieces.drop_last();
        assert forall|k: int, j: int| 0 <= k < front.len() && 0 <= j < front[k].len() implies
            #[trigger] front[k][j] != '/' by {
            assert(pieces[k][j] != '/');
        }
        lemma_join_then_split(front);
        let head = join_with_slashes(front) + seq!['/'];
        assert(head.drop_last() =~= join_with_slashes(front));
        assert(head.last() == '/');
        assert(split_at_slashes(head) == front.push(nothing));
        lemma_split_of_extension(head, last);
        assert(front.push(nothing).drop_last() =~= front);
        assert(nothing + last =~= last);
        assert(front.push(last) =~= pieces);
    }
}

/// The texts of a vector of strings.
pub open spec fn texts(strings: Seq<String>) -> Seq<Seq<char>> {
    strings.map_values(|s: String| s@)
}

/// A route that is served under GET only.
pub open spec fn under_get(method: Method, route: RouteView) -> RouteView {
    if method == Method::Get {
        route
    } else {
        RouteView::MethodNotAllowed
    }
}

/// The route of a request, given its method and its path's segments.
pub open spec fn route_of_segments(method: Method, segments: Seq<Seq<char>>) -> RouteView {
    if segments.len() == 5 && segments[0] == "tiles"@ && segments[1] == "points"@ {
        under_get(
            method,
            RouteView::Tile {
                layer: TileLayer::Points,
                zoom: segments[2],
                column: segments[3],
                row: segments[4],
            },
        )
    } else if segments.len() == 4 && segments[0] == "tiles"@ {
        under_get(
            method,
            RouteView::Tile {
                layer: TileLayer::Base,
                zoom: segments[1],
                column: segments[2],
                row: segments[3],
            },
        )
    } else if segments.len() == 1 && segments[0] == "squares"@ {
        under_get(method, RouteView::Squares)
    } else if segments.len() == 1 && segments[0] == "get_placenames"@ {
        under_get(method, RouteView::Placenames)
    } else if segments.len() == 1 && segments[0] == "add_point"@ {
        if method == Method::Post {
            RouteView::AddPoint
        } else {
            RouteView::MethodNotAllowed
        }
    } else {
        RouteView::StaticAsset
    }
}

/// The route of a request, given its method and its path.
pub open spec fn route_of(method: Method, path: Seq<char>) -> RouteView {
    match path_segments(path) {
        Some(segments) => route_of_segments(method, segments),
        None => RouteView::StaticAsset,
    }
}

/// Splits an absolute path into its segments.
pub fn split_path(path: &str) -> (segments: Option<Vec<String>>)
    ensures
        match segments {
            Some(found) => path_segments(path@) == Some(texts(found@)),
            None => path_segments(path@) is None,
        },
{
    let chars = chars_of(path);
    let n: usize = chars.len();
    if n == 0 || chars[0] != '/' {
        return None;
    }
    let mut segments: Vec<String> = Vec::new();
    let mut start: usize = 1;
    let mut i: usize = 1;
    assert(path@.subrange(1, 1) =~= Seq::<char>::empty());
    assert(texts(segments@) =~= Seq::<Seq<char>>::empty());
    assert(split_at_slashes(path@.subrange(1, 1)) =~= texts(segments@).push(
        path@.subrange(1, 1),
    ));
    while i < n
        invariant
            1 <= start <= i <= n,
            n == chars@.len(),
            chars@ == path@,
            split_at_slashes(path@.subrange(1, i as int)) == texts(segments@).push(
                path@.subrange(start as int, i as int),
            ),
        decreases n - i,
    {
        let ghost seen = path@.subrange(1, i as int);
        let ghost longer = path@.subrange(1, i + 1);
        let ghost done = texts(segments@);
        proof {
            assert(longer.drop_last() =~= seen);
            assert(longer.last() == path@[i as int]);
        }
        if chars[i] == '/' {
            let piece: String = path.substring_char(start, i).to_owned();
            segments.push(piece);
            start = i + 1;
            proof {
                assert(texts(segments@) =~= done.push(piece@));
                assert(path@.subrange(start as int, i + 1) =~= Seq::<char>::empty());
            }
        } else {
            proof {
                let before = done.push(path@.subrange(start as int, i as int));
                assert(before.drop_last() =~= done);
                assert(before.last().push(path@[i as int]) =~= path@.subrange(
                    start as int,
                    i + 1,
                ));
            }
        }
        i = i + 1;
    }
    let ghost done = texts(segments@);
    let last: String = path.substring_char(start, n).to_owned();
    segments.push(last);
    proof {
        assert(texts(segments@) =~= done.push(last@));
        assert(path@.subrange(1, n as int) =~= path@.skip(1));
    }
    Some(segments)
}

/// Whether `text` reads exactly as `word`.
fn reads_as(text: &String, word: &str) -> (same: bool)
    ensures
        same == (text@ == word@),
{
    let wanted: String = word.to_owned();
    text.eq(&wanted)
}

fn under_get_only(method: Method, route: Route) -> (chosen: Route)
    ensures
        chosen@ == under_get(method, route@),
{
    match method {
        Method::Get => route,
        _ => Route::MethodNotAllowed,
    }
}

/// Picks the route for a request whose path has already been split.
pub fn route_segments(method: Method, segments: &Vec<String>) -> (route: Route)
    ensures
        route@ == route_of_segments(method, texts(segments@)),
{
    let count: usize = segments.len();
    if count == 5 && reads_as(&segments[0], "tiles") && reads_as(&segments[1], "points") {
        under_get_only(
            method,
            Route::Tile {
                layer: TileLayer::Points,
                zoom: segments[2].clone(),
                column: segments[3].clone(),
                row: segments[4].clone(),
            },
        )
    } else if count == 4 && reads_as(&segments[0], "tiles") {
        under_get_only(
            method,
            Route::Tile {
                layer: TileLayer::Base,
                zoom: segments[1].clone(),
                column: segments[2].clone(),
                row: segments[3].clone(),
            },
        )
    } else if count == 1 && reads_as(&segments[0], "squares") {
        under_get_only(method, Route::Squares)
    } else if count == 1 && reads_as(&segments[0], "get_placenames") {
        under_get_only(method, Route::Placenames)
    } else if count == 1 && reads_as(&segments[0], "add_point") {
        match method {
            Method::Post => Route::AddPoint,
            _ => Route::MethodNotAllowed,
        }
    } else {
        Route::StaticAsset
    }
}

/// Picks the route for a request: the tile pipeline for a tile address under
/// GET, the squares, place-name and point handlers for their paths, and static
/// asset serving for every path that is none of these.
pub fn route(method: Method, path: &str) -> (route: Route)
    ensures
        route@ == route_of(method, path@),
{
    match split_path(path) {
        Some(segments) => route_segments(method, &segments),
        None => Route::StaticAsset,
    }
}

} // verus!

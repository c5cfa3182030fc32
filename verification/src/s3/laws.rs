//! What holds of the navigation state whatever listings arrive and
//! whatever keys are pressed.

use crate::frontend::{EventAction, FrontendEvent, TerminalEvent};
use crate::s3::controller::{
    entered,
    normal_command,
    parsed_path,
    request_for,
    Command,
    ControllerView,
    EventView,
    InputMode,
    RequestView,
};
use crate::s3::model::{ItemView, ObjectView, S3ItemType};
use crate::s3::rows::{aligned, display_rows, of_kind, padded, rows_of_kind, widest};
use crate::s3::view_model::{
    all_wf,
    current_scope,
    descending,
    merged,
    popped,
    pushed,
    scheme,
    scope_below,
    selected_item,
    stack_first,
    stack_last,
    stack_next,
    stack_previous,
    stack_search_next,
    with_top,
    FrameView,
    OutputView,
};
use crate::text::{
    is_directory,
    lemma_containing_prefix,
    lemma_first_slash_is,
    lemma_parent_of_child,
    slash_free,
    SEPARATOR,
};
use vstd::prelude::*;

verus! {

/// A level made from a listing has the items of the listing, and its cursor
/// on the first of them.
pub proof fn lemma_fresh_level(output: OutputView)
    ensures
        FrameView::fresh(output).wf(),
        FrameView::fresh(output).list.items == output.items(),
        FrameView::fresh(output).list.cursor == (if output.items().len() > 0 {
            Some(0nat)
        } else {
            None
        }),
{
}

/// A level of a bucket always has the way back as its first item, so it is
/// never empty; a list of buckets never has a way back.
pub proof fn lemma_way_back(output: OutputView, i: int)
    requires
        0 <= i < output.items().len(),
    ensures
        output is Objects ==> output.items()[0] == ItemView::Pop,
        output is Objects && i > 0 ==> output.items()[i] != ItemView::Pop,
        output is Buckets ==> output.items()[i] is Bucket,
{
}

/// In every level the cursor is on an item exactly when there is one, and
/// the items are those of the listing: no operation on the stack ever
/// changes that.
pub proof fn lemma_levels_stay_wf(stack: Seq<FrameView>, output: OutputView, text: Seq<char>)
    requires
        all_wf(stack),
    ensures
        all_wf(pushed(stack, output)),
        all_wf(popped(stack)),
        all_wf(merged(stack, output)),
        all_wf(stack_next(stack)),
        all_wf(stack_previous(stack)),
        all_wf(stack_first(stack)),
        all_wf(stack_last(stack)),
        all_wf(stack_search_next(stack, text)),
        all_wf(entered(stack).0),
{
    if stack.len() > 0 {
        assert(stack.last().wf());
    }
}

/// A listing that arrives twice in a row changes nothing the second time:
/// in particular the cursor stays where the first arrival left it.
pub proof fn lemma_merge_twice(stack: Seq<FrameView>, output: OutputView)
    ensures
        merged(merged(stack, output), output) == merged(stack, output),
{
    let once = merged(stack, output);
    assert(merged(once, output) =~= once);
}

/// A listing for the scope on screen keeps the depth of the stack and
/// every level below the top; on top it replaces the listing, and the
/// cursor keeps its index as far as the new items reach.
pub proof fn lemma_refresh_in_place(stack: Seq<FrameView>, output: OutputView)
    requires
        stack.len() > 0,
        output.scope() == current_scope(stack),
    ensures
        merged(stack, output).len() == stack.len(),
        merged(stack, output).drop_last() == stack.drop_last(),
        merged(stack, output).last().output == output,
        merged(stack, output).last().list == stack.last().list.updated(output.items()),
{
    assert(merged(stack, output).drop_last() =~= stack.drop_last());
}

/// A listing for a scope that is neither on screen nor below it is dropped.
pub proof fn lemma_stale_listing_dropped(stack: Seq<FrameView>, output: OutputView)
    requires
        stack.len() > 0,
        output.scope() != current_scope(stack),
        !scope_below(output.scope(), current_scope(stack)),
    ensures
        merged(stack, output) == stack,
{
}

/// A scope is not below itself, and of two scopes at most one is below the
/// other.
pub proof fn lemma_scope_below_strict(
    a: Option<(Seq<char>, Seq<char>)>,
    b: Option<(Seq<char>, Seq<char>)>,
)
    ensures
        !scope_below(a, a),
        scope_below(a, b) ==> !scope_below(b, a),
{
}

/// A listing for a scope above the one on screen is dropped. Such is a
/// listing that was asked for before a descent and arrives after it.
pub proof fn lemma_listing_from_above_dropped(stack: Seq<FrameView>, output: OutputView)
    requires
        stack.len() > 0,
        scope_below(current_scope(stack), output.scope()),
    ensures
        merged(stack, output) == stack,
{
    lemma_scope_below_strict(current_scope(stack), output.scope());
}

/// No operation but a pop touches a level below the top: a level that is
/// not on screen keeps its listing and its cursor.
pub proof fn lemma_only_top_changes(
    stack: Seq<FrameView>,
    output: OutputView,
    text: Seq<char>,
    i: int,
)
    requires
        0 <= i < stack.len() - 1,
    ensures
        merged(stack, output)[i] == stack[i],
        pushed(stack, output)[i] == stack[i],
        popped(stack)[i] == stack[i],
        stack_next(stack)[i] == stack[i],
        stack_previous(stack)[i] == stack[i],
        stack_first(stack)[i] == stack[i],
        stack_last(stack)[i] == stack[i],
        stack_search_next(stack, text)[i] == stack[i],
        entered(stack).0[i] == stack[i],
{
}

/// A stack that has grown downwards only stays so when a listing arrives,
/// when a level is left, and when the cursor moves.
pub proof fn lemma_stack_stays_descending(
    stack: Seq<FrameView>,
    output: OutputView,
    text: Seq<char>,
)
    requires
        descending(stack),
    ensures
        descending(merged(stack, output)),
        descending(popped(stack)),
        descending(stack_next(stack)),
        descending(stack_previous(stack)),
        descending(stack_first(stack)),
        descending(stack_last(stack)),
        descending(stack_search_next(stack, text)),
        descending(entered(stack).0),
{
    let after = merged(stack, output);
    assert forall|i: int| 0 < i < after.len() implies scope_below(
        (#[trigger] after[i]).output.scope(),
        after[i - 1].output.scope(),
    ) by {
        if i < stack.len() {
            assert(scope_below(stack[i].output.scope(), stack[i - 1].output.scope()));
        }
    }
    lemma_cursor_moves_keep_descending(stack, stack_next(stack));
    lemma_cursor_moves_keep_descending(stack, stack_previous(stack));
    lemma_cursor_moves_keep_descending(stack, stack_first(stack));
    lemma_cursor_moves_keep_descending(stack, stack_last(stack));
    lemma_cursor_moves_keep_descending(stack, stack_search_next(stack, text));
    let rest = popped(stack);
    assert forall|i: int| 0 < i < rest.len() implies scope_below(
        (#[trigger] rest[i]).output.scope(),
        rest[i - 1].output.scope(),
    ) by {
        assert(scope_below(stack[i].output.scope(), stack[i - 1].output.scope()));
    }
}

/// Two stacks with the same listings level by level grow downwards
/// together.
pub proof fn lemma_cursor_moves_keep_descending(stack: Seq<FrameView>, moved: Seq<FrameView>)
    requires
        descending(stack),
        moved.len() == stack.len(),
        forall|i: int| 0 <= i < stack.len() ==> moved[i].output == stack[i].output,
    ensures
        descending(moved),
{
    assert forall|i: int| 0 < i < moved.len() implies scope_below(
        (#[trigger] moved[i]).output.scope(),
        moved[i - 1].output.scope(),
    ) by {
        assert(scope_below(stack[i].output.scope(), stack[i - 1].output.scope()));
    }
}

/// The stack after `n` steps down.
pub open spec fn stack_next_times(stack: Seq<FrameView>, n: nat) -> Seq<FrameView>
    decreases n,
{
    if n == 0 {
        stack
    } else {
        stack_next_times(stack_next(stack), (n - 1) as nat)
    }
}

/// The stack after `n` steps up.
pub open spec fn stack_previous_times(stack: Seq<FrameView>, n: nat) -> Seq<FrameView>
    decreases n,
{
    if n == 0 {
        stack
    } else {
        stack_previous_times(stack_previous(stack), (n - 1) as nat)
    }
}

/// `n` steps on the stack are `n` steps in the list of its top level.
pub proof fn lemma_stack_steps(stack: Seq<FrameView>, n: nat)
    requires
        stack.len() > 0,
    ensures
        stack_next_times(stack, n) == with_top(
            stack,
            stack.last().with_list(stack.last().list.next_times(n)),
        ),
        stack_previous_times(stack, n) == with_top(
            stack,
            stack.last().with_list(stack.last().list.previous_times(n)),
        ),
    decreases n,
{
    if n == 0 {
        assert(with_top(stack, stack.last().with_list(stack.last().list)) =~= stack);
    } else {
        let down = stack_next(stack);
        lemma_stack_steps(down, (n - 1) as nat);
        assert(with_top(down, down.last().with_list(down.last().list.next_times((n - 1) as nat)))
            =~= with_top(stack, stack.last().with_list(stack.last().list.next_times(n))));
        let up = stack_previous(stack);
        lemma_stack_steps(up, (n - 1) as nat);
        assert(with_top(up, up.last().with_list(up.last().list.previous_times((n - 1) as nat)))
            =~= with_top(stack, stack.last().with_list(stack.last().list.previous_times(n))));
    }
}

/// On a level of `n > 0` items, `n` steps down bring the cursor back to
/// where it started, and so do `n` steps up.
pub proof fn lemma_steps_wrap(stack: Seq<FrameView>)
    requires
        stack.len() > 0,
        stack.last().list.wf(),
        stack.last().list.items.len() > 0,
    ensures
        stack_next_times(stack, stack.last().list.items.len()) == stack,
        stack_previous_times(stack, stack.last().list.items.len()) == stack,
{
    let n = stack.last().list.items.len();
    lemma_stack_steps(stack, n);
    stack.last().list.lemma_next_wraps();
    stack.last().list.lemma_previous_wraps();
    assert(with_top(stack, stack.last().with_list(stack.last().list)) =~= stack);
}

/// A search leaves the cursor on an item that matches, unless nothing
/// matches; then it leaves the cursor where it was.
pub proof fn lemma_search_lands_on_match(frame: FrameView, text: Seq<char>)
    requires
        frame.list.wf(),
    ensures
        frame.search_next(text).list.items == frame.list.items,
        frame.search_next(text).output == frame.output,
        frame.search_next(text).list.wf(),
        (exists|i: int| 0 <= i < frame.list.items.len() && frame.list.items[i].matches(text))
            ==> frame.search_next(text).list.selected() is Some && frame.search_next(
            text,
        ).list.selected()->0.matches(text),
        (forall|i: int| 0 <= i < frame.list.items.len() ==> !frame.list.items[i].matches(text))
            ==> frame.search_next(text) == frame,
{
    let items = frame.list.items;
    let start = match frame.list.cursor {
        Some(i) => i as int + 1,
        None => 1,
    };
    crate::s3::view_model::lemma_first_match_from(items, text, 0);
    if start <= items.len() {
        crate::s3::view_model::lemma_first_match_from(items, text, start);
    }
}

/// Descending: activating a bucket or a prefix asks for its listing and
/// leaves the stack as it is; when a listing for a scope below the one on
/// screen arrives, it becomes a new level with the cursor on its first
/// item.
pub proof fn lemma_descend(stack: Seq<FrameView>, output: OutputView)
    requires
        stack.len() > 0,
        stack.last().wf(),
        selected_item(stack) is Some,
        selected_item(stack)->0 is Bucket || selected_item(stack)->0 is CommonPrefix,
        entered(stack).1 == Some(request_for(output.scope())),
        scope_below(output.scope(), current_scope(stack)),
    ensures
        entered(stack).0 == stack,
        merged(stack, output) == stack.push(FrameView::fresh(output)),
        current_scope(merged(stack, output)) == output.scope(),
{
    lemma_scope_below_strict(output.scope(), current_scope(stack));
}

/// Ascending inside a bucket: the way back takes the level on screen off
/// the stack and asks for the level above anew. Where the level left was
/// entered from the one now on screen, the listing that arrives replaces
/// the listing of that level, and the cursor there keeps its index.
pub proof fn lemma_ascend_refreshes_parent(
    stack: Seq<FrameView>,
    bucket: Seq<char>,
    directory: Seq<char>,
    name: Seq<char>,
    output: OutputView,
)
    requires
        stack.len() >= 2,
        selected_item(stack) == Some(ItemView::Pop),
        current_scope(stack) == Some((bucket, directory + name + seq![SEPARATOR])),
        current_scope(popped(stack)) == Some((bucket, directory)),
        is_directory(directory),
        directory.len() != 1,
        slash_free(name),
        output.scope() == Some((bucket, directory)),
    ensures
        entered(stack).0 == popped(stack),
        entered(stack).1 == Some(request_for(output.scope())),
        merged(entered(stack).0, output) == with_top(
            popped(stack),
            popped(stack).last().refreshed(output),
        ),
{
    lemma_parent_of_child(directory, name);
}

/// Ascending out of a bucket: where no level of a bucket remains under the
/// level that is left, the way back asks for the list of buckets anew.
/// When that list arrives it replaces the list on screen, or becomes the
/// first level where the stack was left empty.
pub proof fn lemma_ascend_to_buckets(stack: Seq<FrameView>, output: OutputView)
    requires
        selected_item(stack) == Some(ItemView::Pop),
        current_scope(popped(stack)) is None,
        output is Buckets,
    ensures
        entered(stack).0 == popped(stack),
        entered(stack).1 == Some(RequestView::BucketList),
        current_scope(merged(entered(stack).0, output)) is None,
        merged(entered(stack).0, output).len() == (if stack.len() == 1 {
            1nat
        } else {
            (stack.len() - 1) as nat
        }),
        merged(entered(stack).0, output).last().output == output,
{
}

/// Whether `event` is a key that asks to quit in the state `state`.
pub open spec fn asks_to_quit(state: ControllerView, event: EventView) -> bool {
    match event {
        EventView::KeyEvent(FrontendEvent::TerminalEvent(TerminalEvent::Key(key))) => state.mode
            == InputMode::Normal && normal_command(key, state.last_key) == Command::Quit,
        _ => false,
    }
}

/// Only a key that asks to quit in normal mode ends the program. A listing
/// that arrives is merged into the stack, asks for nothing and always has
/// the screen drawn again.
pub proof fn lemma_exit_only_by_command(state: ControllerView, event: EventView)
    ensures
        state.step(event).action == EventAction::Exit <==> asks_to_quit(state, event),
        event is ClientEvent ==> state.step(event).request is None,
        event is ClientEvent ==> state.step(event).action == EventAction::NeedReDraw,
        event is ClientEvent ==> state.step(event).state.stack == merged(
            state.stack,
            event->ClientEvent_0,
        ),
{
}

/// Once the search text has its marker, no event takes it off.
pub proof fn lemma_query_keeps_marker(state: ControllerView, event: EventView)
    requires
        state.query.len() > 0 && state.query[0] == SEPARATOR,
    ensures
        state.step(event).state.query.len() > 0,
        state.step(event).state.query[0] == SEPARATOR,
{
}

/// The levels stay well-formed under every event.
pub proof fn lemma_step_keeps_wf(state: ControllerView, event: EventView)
    requires
        all_wf(state.stack),
    ensures
        all_wf(state.step(event).state.stack),
{
    let text = Seq::<char>::empty();
    match event {
        EventView::ClientEvent(output) => {
            lemma_levels_stay_wf(state.stack, output, text);
        },
        EventView::KeyEvent(FrontendEvent::TerminalEvent(TerminalEvent::Key(key))) => {
            let output = OutputView::Buckets(Seq::empty());
            lemma_levels_stay_wf(state.stack, output, text);
            lemma_levels_stay_wf(state.stack, output, state.query.skip(1));
            let after = state.step(event).state;
            lemma_levels_stay_wf(state.stack, output, after.query.skip(1));
        },
        _ => {},
    }
}

/// The stack only ever grows downwards under every event.
pub proof fn lemma_step_keeps_descending(state: ControllerView, event: EventView)
    requires
        descending(state.stack),
    ensures
        descending(state.step(event).state.stack),
{
    let text = Seq::<char>::empty();
    match event {
        EventView::ClientEvent(output) => {
            lemma_stack_stays_descending(state.stack, output, text);
        },
        EventView::KeyEvent(FrontendEvent::TerminalEvent(TerminalEvent::Key(key))) => {
            let output = OutputView::Buckets(Seq::empty());
            lemma_stack_stays_descending(state.stack, output, state.query.skip(1));
            let after = state.step(event).state;
            lemma_stack_stays_descending(state.stack, output, after.query.skip(1));
        },
        _ => {},
    }
}

/// An address is the scheme, a bucket, and perhaps a separator and a key.
/// Parsing gives back the bucket, and of the key the directory it stands
/// in: a leaf name at the end is taken off, and a key without a separator
/// leaves the empty prefix.
pub proof fn lemma_parse_path(bucket: Seq<char>, directory: Seq<char>, leaf: Seq<char>)
    requires
        slash_free(bucket),
        is_directory(directory),
        slash_free(leaf),
    ensures
        parsed_path(scheme() + bucket) == Some((bucket, Seq::<char>::empty())),
        parsed_path(scheme() + bucket + seq![SEPARATOR] + directory + leaf) == Some(
            (bucket, directory),
        ),
{
    let bare = scheme() + bucket;
    assert(bare.skip(scheme().len() as int) =~= bucket);
    lemma_first_slash_is(bucket, 0, bucket.len() as int);

    let path = scheme() + bucket + seq![SEPARATOR] + directory + leaf;
    let rest = bucket + seq![SEPARATOR] + directory + leaf;
    assert(path.skip(scheme().len() as int) =~= rest);
    lemma_first_slash_is(rest, 0, bucket.len() as int);
    assert(rest.take(bucket.len() as int) =~= bucket);
    assert(rest.skip(bucket.len() as int + 1) =~= directory + leaf);
    lemma_containing_prefix(directory, leaf);
}

/// An address is refused exactly when it does not begin with the scheme.
pub proof fn lemma_parse_refuses(path: Seq<char>)
    ensures
        parsed_path(path) is None <==> !scheme().is_prefix_of(path),
{
}

/// Where every item passes a test, filtering by it keeps them all.
pub proof fn lemma_filter_keeps_all(items: Seq<ItemView>, kind: S3ItemType)
    requires
        forall|i: int| 0 <= i < items.len() ==> items[i].item_type() == kind,
    ensures
        items.filter(of_kind(kind)) == items,
    decreases items.len(),
{
    reveal(Seq::filter);
    if items.len() > 0 {
        lemma_filter_keeps_all(items.drop_last(), kind);
        assert(items.drop_last().push(items.last()) =~= items);
    }
}

/// Where no item passes a test, filtering by it keeps none.
pub proof fn lemma_filter_keeps_none(items: Seq<ItemView>, kind: S3ItemType)
    requires
        forall|i: int| 0 <= i < items.len() ==> items[i].item_type() != kind,
    ensures
        items.filter(of_kind(kind)) == Seq::<ItemView>::empty(),
    decreases items.len(),
{
    reveal(Seq::filter);
    if items.len() > 0 {
        lemma_filter_keeps_none(items.drop_last(), kind);
    }
}

/// The items of a listing are already in the order in which they are
/// shown, so the rows follow the items one by one: row `i` is the row of
/// item `i` with its first two columns filled up, and the cursor of a level
/// points at the row of the item it is on.
pub proof fn lemma_rows_follow_items(output: OutputView, i: int)
    requires
        0 <= i < output.items().len(),
    ensures
        display_rows(output.items()).len() == output.items().len(),
        display_rows(output.items())[i].2 == output.items()[i].row().2,
        exists|left: nat, mid: nat|
            display_rows(output.items())[i] == (
                padded(output.items()[i].row().0, left),
                padded(output.items()[i].row().1, mid),
                output.items()[i].row().2,
            ),
{
    let items = output.items();
    let none = Seq::<ItemView>::empty();
    match output {
        OutputView::Buckets(buckets) => {
            lemma_filter_keeps_none(items, S3ItemType::Pop);
            lemma_filter_keeps_all(items, S3ItemType::Bucket);
            lemma_filter_keeps_none(items, S3ItemType::CommonPrefix);
            lemma_filter_keeps_none(items, S3ItemType::Object);
            let rows = rows_of_kind(items, S3ItemType::Bucket);
            assert(display_rows(items) =~= aligned(rows));
            assert(display_rows(items)[i] == (
                padded(items[i].row().0, widest(rows, 0)),
                padded(items[i].row().1, widest(rows, 1)),
                items[i].row().2,
            ));
        },
        OutputView::Objects(listing) => {
            let way_back = seq![ItemView::Pop];
            let prefixes = listing.common_prefixes.map_values(
                |p: Seq<char>| ItemView::CommonPrefix(p),
            );
            let objects = listing.contents.map_values(|o: ObjectView| ItemView::Object(o));
            assert(items == way_back + prefixes + objects);
            Seq::filter_distributes_over_add(way_back + prefixes, objects, of_kind(S3ItemType::Pop));
            Seq::filter_distributes_over_add(way_back, prefixes, of_kind(S3ItemType::Pop));
            Seq::filter_distributes_over_add(
                way_back + prefixes,
                objects,
                of_kind(S3ItemType::Bucket),
            );
            Seq::filter_distributes_over_add(way_back, prefixes, of_kind(S3ItemType::Bucket));
            Seq::filter_distributes_over_add(
                way_back + prefixes,
                objects,
                of_kind(S3ItemType::CommonPrefix),
            );
            Seq::filter_distributes_over_add(way_back, prefixes, of_kind(S3ItemType::CommonPrefix));
            Seq::filter_distributes_over_add(
                way_back + prefixes,
                objects,
                of_kind(S3ItemType::Object),
            );
            Seq::filter_distributes_over_add(way_back, prefixes, of_kind(S3ItemType::Object));
            lemma_filter_keeps_all(way_back, S3ItemType::Pop);
            lemma_filter_keeps_none(prefixes, S3ItemType::Pop);
            lemma_filter_keeps_none(objects, S3ItemType::Pop);
            lemma_filter_keeps_none(way_back, S3ItemType::Bucket);
            lemma_filter_keeps_none(prefixes, S3ItemType::Bucket);
            lemma_filter_keeps_none(objects, S3ItemType::Bucket);
            lemma_filter_keeps_none(way_back, S3ItemType::CommonPrefix);
            lemma_filter_keeps_all(prefixes, S3ItemType::CommonPrefix);
            lemma_filter_keeps_none(objects, S3ItemType::CommonPrefix);
            lemma_filter_keeps_none(way_back, S3ItemType::Object);
            lemma_filter_keeps_none(prefixes, S3ItemType::Object);
            lemma_filter_keeps_all(objects, S3ItemType::Object);
            assert(items.filter(of_kind(S3ItemType::Pop)) =~= way_back);
            assert(items.filter(of_kind(S3ItemType::Bucket)) =~= none);
            assert(items.filter(of_kind(S3ItemType::CommonPrefix)) =~= prefixes);
            assert(items.filter(of_kind(S3ItemType::Object)) =~= objects);
            let r0 = rows_of_kind(items, S3ItemType::Pop);
            let r2 = rows_of_kind(items, S3ItemType::CommonPrefix);
            let r3 = rows_of_kind(items, S3ItemType::Object);
            assert(display_rows(items) =~= aligned(r0) + aligned(r2) + aligned(r3));
            if i == 0 {
                assert(display_rows(items)[i] == (
                    padded(items[i].row().0, widest(r0, 0)),
                    padded(items[i].row().1, widest(r0, 1)),
                    items[i].row().2,
                ));
            } else if i <= prefixes.len() {
                assert(display_rows(items)[i] == aligned(r2)[i - 1]);
                assert(display_rows(items)[i] == (
                    padded(items[i].row().0, widest(r2, 0)),
                    padded(items[i].row().1, widest(r2, 1)),
                    items[i].row().2,
                ));
            } else {
                assert(display_rows(items)[i] == aligned(r3)[i - 1 - prefixes.len()]);
                assert(display_rows(items)[i] == (
                    padded(items[i].row().0, widest(r3, 0)),
                    padded(items[i].row().1, widest(r3, 1)),
                    items[i].row().2,
                ));
            }
        },
    }
}

/// Whatever the items and their order: where a way back is among them, the
/// first row shown is the row of a way back.
pub proof fn lemma_way_back_shown_first(items: Seq<ItemView>, i: int)
    requires
        0 <= i < items.len(),
        items[i] == ItemView::Pop,
    ensures
        rows_of_kind(items, S3ItemType::Pop).len() > 0,
        rows_of_kind(items, S3ItemType::Pop)[0] == ItemView::Pop.row(),
        display_rows(items)[0] == aligned(rows_of_kind(items, S3ItemType::Pop))[0],
{
    let is_way_back = of_kind(S3ItemType::Pop);
    let kept = items.filter(is_way_back);
    items.lemma_filter_contains(is_way_back, i);
    assert(kept.len() > 0);
    items.lemma_filter_pred(is_way_back, 0);
    assert(kept[0].item_type() == S3ItemType::Pop);
    assert(kept[0] == ItemView::Pop);
}

/// The state of a controller after the events `events`, in order.
pub open spec fn after(events: Seq<EventView>) -> ControllerView
    decreases events.len(),
{
    if events.len() == 0 {
        ControllerView::initial()
    } else {
        after(events.drop_last()).step(events.last()).state
    }
}

/// Whatever keys are pressed and whatever listings arrive: in every level
/// the items are those of the listing and the cursor is on one of them
/// exactly when there is one; each level lies below the one before it; and
/// the search text, once begun, keeps its marker, which it always has while
/// it is typed.
pub proof fn lemma_always(events: Seq<EventView>)
    ensures
        all_wf(after(events).stack),
        descending(after(events).stack),
        after(events).query.len() == 0 || after(events).query[0] == SEPARATOR,
        after(events).mode == InputMode::Search ==> after(events).query.len() > 0,
    decreases events.len(),
{
    if events.len() > 0 {
        let before = after(events.drop_last());
        lemma_always(events.drop_last());
        lemma_step_keeps_wf(before, events.last());
        lemma_step_keeps_descending(before, events.last());
        if before.query.len() > 0 {
            lemma_query_keeps_marker(before, events.last());
        }
    }
}

} // verus!

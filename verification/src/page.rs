//! The dictionary page as the HTML parser sees it: the calls into `nipper`
//! and what is assumed of them.

use vstd::prelude::*;
use crate::blocks::{
    block_models, EntryBlock, EntryBlockModel, PhraseBlock, PhraseBlockModel, SenseBlock,
    SenseBlockModel,
};
use crate::text::{join, joined, texts};

verus! {

/// `nipper::Document`, a parsed page. Nothing inside it is seen here.
#[verifier::external_type_specification]
#[verifier::external_body]
pub struct ExDocument(nipper::Document);

/// `nipper::Selection`, some nodes of a parsed page. Nothing inside it is
/// seen here.
#[verifier::external_type_specification]
#[verifier::external_body]
pub struct ExSelection<'a>(nipper::Selection<'a>);

/// The HTML text that a document was parsed from.
pub uninterp spec fn page_text(page: nipper::Document) -> Seq<char>;

/// The HTML text of the document that the nodes of a selection belong to.
pub uninterp spec fn selection_page(sel: nipper::Selection<'_>) -> Seq<char>;

/// The nodes of a selection in its order, each by its number in the tree
/// that the parser built.
pub uninterp spec fn selection_nodes(sel: nipper::Selection<'_>) -> Seq<nat>;

/// The nodes in the document parsed from `html` that match the selector, in
/// document order.
pub uninterp spec fn page_matches(html: Seq<char>, selector: Seq<char>) -> Seq<nat>;

/// The nodes below the nodes `roots` of the document parsed from `html` that
/// match the selector: the descendants of the first root in document order,
/// then those of the next, each node once.
pub uninterp spec fn matches_under(html: Seq<char>, roots: Seq<nat>, selector: Seq<char>) -> Seq<
    nat,
>;

/// The text inside the nodes `nodes` of the document parsed from `html`, one
/// node after the other.
pub uninterp spec fn text_of(html: Seq<char>, nodes: Seq<nat>) -> Seq<char>;

/// The longest page that is handed to the parser, in characters. The
/// parser keeps its text in buffers whose length is a 32-bit number; up to
/// this length neither the page as bytes nor the text of any node outgrows
/// them.
pub const MAX_PAGE_LEN: usize = 0x0800_0000;

/// Whether the nodes of `sel` are nodes of the page `html`. An empty
/// selection has no nodes that could belong elsewhere.
pub open spec fn on_page(sel: nipper::Selection<'_>, html: Seq<char>) -> bool {
    selection_nodes(sel).len() > 0 ==> selection_page(sel) == html
}

/// The selectors that the library asks the parser for. Each is a valid CSS
/// selector.
pub open spec fn is_page_selector(selector: Seq<char>) -> bool {
    ||| selector == "div.dictionary"@
    ||| selector == ".dictentry"@
    ||| selector == ".PronCodes"@
    ||| selector == ".POS"@
    ||| selector == ".Sense"@
    ||| selector == ".DEF"@
    ||| selector == ".SIGNPOST"@
    ||| selector == ".EXAMPLE"@
    ||| selector == ".GramExa, .ColloExa"@
    ||| selector == ".PROPFORMPREP, .PROPFORM"@
}

/// The nodes that a selection below `roots` gives: none below no roots,
/// otherwise what the parser finds.
pub open spec fn found_under(html: Seq<char>, roots: Seq<nat>, selector: Seq<char>) -> Seq<nat> {
    if roots.len() == 0 {
        Seq::empty()
    } else {
        matches_under(html, roots, selector)
    }
}

/// The text of a selection: empty for no nodes, otherwise what the parser
/// puts together.
pub open spec fn text_at(html: Seq<char>, nodes: Seq<nat>) -> Seq<char> {
    if nodes.len() == 0 {
        Seq::empty()
    } else {
        text_of(html, nodes)
    }
}

/// The first node of `nodes` alone, or nothing if there is none.
pub open spec fn first_of(nodes: Seq<nat>) -> Seq<nat> {
    if nodes.len() > 0 {
        seq![nodes[0]]
    } else {
        Seq::empty()
    }
}

/// Whether some node of `a` is among the nodes of `b`.
pub open spec fn share_a_node(a: Seq<nat>, b: Seq<nat>) -> bool {
    exists|i: int| 0 <= i < a.len() && b.contains(#[trigger] a[i])
}

/// Parses an HTML text with `nipper::Document::from`. Which tree the parser
/// builds depends on the text alone. It panics on a text of more than
/// `u32::MAX` bytes, so only pages up to `MAX_PAGE_LEN` are let in.
#[verifier::external_body]
pub(crate) fn open_page(html: &str) -> (page: nipper::Document)
    requires
        html@.len() <= MAX_PAGE_LEN,
    ensures
        page_text(page) == html@,
{
    nipper::Document::from(html)
}

/// `nipper::Document::select`: the nodes of the whole document that match
/// the selector. It panics on a selector that does not parse, so only the
/// library's own selectors are let in.
#[verifier::external_body]
pub(crate) fn select_in_page<'a>(page: &'a nipper::Document, selector: &str) -> (r:
    nipper::Selection<'a>)
    requires
        is_page_selector(selector@),
    ensures
        selection_nodes(r).len() > 0 ==> selection_page(r) == page_text(*page),
        selection_nodes(r) == page_matches(page_text(*page), selector@),
{
    page.select(selector)
}

/// `nipper::Selection::select`: the nodes below those of `sel` that match
/// the selector, none where `sel` is empty. It panics on a selector that
/// does not parse, so only the library's own selectors are let in.
#[verifier::external_body]
pub(crate) fn select_under<'a>(sel: &nipper::Selection<'a>, selector: &str) -> (r:
    nipper::Selection<'a>)
    requires
        is_page_selector(selector@),
    ensures
        selection_nodes(r).len() > 0 ==> selection_page(r) == selection_page(*sel),
        selection_nodes(r) == if selection_nodes(*sel).len() == 0 {
            Seq::<nat>::empty()
        } else {
            matches_under(selection_page(*sel), selection_nodes(*sel), selector@)
        },
{
    sel.select(selector)
}

/// `nipper::Selection::first`: the selection of the first node alone, or
/// the empty selection.
#[verifier::external_body]
pub(crate) fn first_node<'a>(sel: &nipper::Selection<'a>) -> (r: nipper::Selection<'a>)
    ensures
        selection_nodes(r).len() > 0 ==> selection_page(r) == selection_page(*sel),
        selection_nodes(r) == first_of(selection_nodes(*sel)),
{
    sel.first()
}

/// `nipper::Selection::text` on at most one node: the text content of the
/// node and of all below it, put together in order; the empty string for
/// the empty selection. The text of several nodes is put into one buffer
/// and panics where it outgrows the buffer; that of one node of a page up to
/// `MAX_PAGE_LEN` does not.
#[verifier::external_body]
pub(crate) fn text_in(sel: &nipper::Selection<'_>) -> (r: String)
    requires
        selection_nodes(*sel).len() <= 1,
        selection_nodes(*sel).len() == 1 ==> selection_page(*sel).len() <= MAX_PAGE_LEN,
    ensures
        r@ == if selection_nodes(*sel).len() == 0 {
            Seq::<char>::empty()
        } else {
            text_of(selection_page(*sel), selection_nodes(*sel))
        },
{
    sel.text().to_string()
}

/// `nipper::Selection::iter`: one selection for each node, in order.
#[verifier::external_body]
pub(crate) fn each_node<'a>(sel: &nipper::Selection<'a>) -> (r: Vec<nipper::Selection<'a>>)
    ensures
        r@.len() == selection_nodes(*sel).len(),
        forall|i: int|
            0 <= i < r@.len() ==> selection_page(#[trigger] r@[i]) == selection_page(*sel)
                && selection_nodes(r@[i]) == seq![selection_nodes(*sel)[i]],
{
    sel.iter().collect()
}

/// `nipper::Selection::is_selection`: whether a node of `sel` is among the
/// nodes of `other`.
#[verifier::external_body]
pub(crate) fn shares_node(sel: &nipper::Selection<'_>, other: &nipper::Selection<'_>) -> (r: bool)
    ensures
        r == share_a_node(selection_nodes(*sel), selection_nodes(*other)),
{
    sel.is_selection(other)
}

/// The text of each of `nodes` by itself.
pub open spec fn node_texts(html: Seq<char>, nodes: Seq<nat>) -> Seq<Seq<char>> {
    Seq::new(nodes.len(), |i: int| text_of(html, seq![nodes[i]]))
}

/// The texts of `nodes`, one after the other. A node that lies inside
/// another of them gives its text a second time.
pub open spec fn texts_in_a_row(html: Seq<char>, nodes: Seq<nat>) -> Seq<char> {
    joined(node_texts(html, nodes), ""@)
}

/// Those of `nodes` that are not among `nested`, in their order.
pub open spec fn outside(nodes: Seq<nat>, nested: Seq<nat>) -> Seq<nat>
    decreases nodes.len(),
{
    if nodes.len() == 0 {
        Seq::empty()
    } else {
        let rest = outside(nodes.drop_last(), nested);
        if nested.contains(nodes.last()) {
            rest
        } else {
            rest.push(nodes.last())
        }
    }
}

/// The phrase block at `node`: the text of the first headword below it, in
/// either of its two markups, and of every example sentence below it.
pub open spec fn phrase_block_at(html: Seq<char>, node: nat) -> PhraseBlockModel {
    let me = seq![node];
    PhraseBlockModel {
        headword: text_at(html, first_of(found_under(html, me, ".PROPFORMPREP, .PROPFORM"@))),
        examples: node_texts(html, found_under(html, me, ".EXAMPLE"@)),
    }
}

/// The sense block at `node`: its definition and its signpost, each the
/// texts of its nodes in a row; its phrase blocks in either of their two
/// markups; and the example sentences below it that stand in none of its
/// phrase blocks.
pub open spec fn sense_block_at(html: Seq<char>, node: nat) -> SenseBlockModel {
    let me = seq![node];
    let phrase_nodes = found_under(html, me, ".GramExa, .ColloExa"@);
    let nested = found_under(html, phrase_nodes, ".EXAMPLE"@);
    SenseBlockModel {
        definition: texts_in_a_row(html, found_under(html, me, ".DEF"@)),
        signpost: texts_in_a_row(html, found_under(html, me, ".SIGNPOST"@)),
        examples: node_texts(html, outside(found_under(html, me, ".EXAMPLE"@), nested)),
        phrase_blocks: Seq::new(phrase_nodes.len(), |k: int| phrase_block_at(html, phrase_nodes[k])),
    }
}

/// The entry block at `node`: the first pronunciation and the first
/// part-of-speech label below it, and its sense blocks.
pub open spec fn entry_block_at(html: Seq<char>, node: nat) -> EntryBlockModel {
    let me = seq![node];
    let sense_nodes = found_under(html, me, ".Sense"@);
    EntryBlockModel {
        pronunciation: text_at(html, first_of(found_under(html, me, ".PronCodes"@))),
        label: text_at(html, first_of(found_under(html, me, ".POS"@))),
        senses: Seq::new(sense_nodes.len(), |k: int| sense_block_at(html, sense_nodes[k])),
    }
}

/// The entry blocks of the page `html`: those below its first dictionary
/// container, in document order.
pub open spec fn page_blocks(html: Seq<char>) -> Seq<EntryBlockModel> {
    let container = first_of(page_matches(html, "div.dictionary"@));
    let entry_nodes = found_under(html, container, ".dictentry"@);
    Seq::new(entry_nodes.len(), |k: int| entry_block_at(html, entry_nodes[k]))
}

/// The text of the first node of `found`, or the empty string.
fn first_text(found: &nipper::Selection<'_>, Ghost(html): Ghost<Seq<char>>) -> (r: String)
    requires
        on_page(*found, html),
        html.len() <= MAX_PAGE_LEN,
    ensures
        r@ == text_at(html, first_of(selection_nodes(*found))),
{
    let first = first_node(found);
    text_in(&first)
}

/// The text of each node of `sel` by itself.
fn texts_of_each(sel: &nipper::Selection<'_>, Ghost(html): Ghost<Seq<char>>) -> (r: Vec<String>)
    requires
        on_page(*sel, html),
        html.len() <= MAX_PAGE_LEN,
    ensures
        texts(r@) == node_texts(html, selection_nodes(*sel)),
{
    let items = each_node(sel);
    let ghost nodes = selection_nodes(*sel);
    let mut out: Vec<String> = Vec::new();
    let mut i: usize = 0;
    while i < items.len()
        invariant
            0 <= i <= items@.len(),
            items@.len() == nodes.len(),
            html.len() <= MAX_PAGE_LEN,
            forall|k: int|
                0 <= k < items@.len() ==> selection_page(#[trigger] items@[k]) == html
                    && selection_nodes(items@[k]) == seq![nodes[k]],
            out@.len() == i,
            forall|k: int| 0 <= k < i ==> (#[trigger] out@[k])@ == text_of(html, seq![nodes[k]]),
        decreases items@.len() - i,
    {
        let t = text_in(&items[i]);
        out.push(t);
        i = i + 1;
    }
    assert(texts(out@) =~= node_texts(html, nodes));
    out
}

/// The texts of the nodes of `sel`, one after the other.
fn text_in_a_row(sel: &nipper::Selection<'_>, Ghost(html): Ghost<Seq<char>>) -> (r: String)
    requires
        on_page(*sel, html),
        html.len() <= MAX_PAGE_LEN,
    ensures
        r@ == texts_in_a_row(html, selection_nodes(*sel)),
{
    let each = texts_of_each(sel, Ghost(html));
    join(&each, "")
}

/// Reads the phrase block at the one node of `block`.
fn read_phrase(block: &nipper::Selection<'_>, Ghost(html): Ghost<Seq<char>>) -> (r: PhraseBlock)
    requires
        selection_nodes(*block).len() == 1,
        selection_page(*block) == html,
        html.len() <= MAX_PAGE_LEN,
    ensures
        r@ == phrase_block_at(html, selection_nodes(*block)[0]),
{
    assert(selection_nodes(*block) =~= seq![selection_nodes(*block)[0]]);
    let heads = select_under(block, ".PROPFORMPREP, .PROPFORM");
    let headword = first_text(&heads, Ghost(html));
    let found = select_under(block, ".EXAMPLE");
    let examples = texts_of_each(&found, Ghost(html));
    PhraseBlock { headword, examples }
}

/// The texts of the nodes of `found` that are not among those of `nested`.
fn texts_outside(
    found: &nipper::Selection<'_>,
    nested: &nipper::Selection<'_>,
    Ghost(html): Ghost<Seq<char>>,
) -> (r: Vec<String>)
    requires
        on_page(*found, html),
        html.len() <= MAX_PAGE_LEN,
    ensures
        texts(r@) == node_texts(html, outside(selection_nodes(*found), selection_nodes(*nested))),
{
    let items = each_node(found);
    let ghost all = selection_nodes(*found);
    let ghost inner = selection_nodes(*nested);
    let ghost mut kept: Seq<nat> = Seq::empty();
    let mut out: Vec<String> = Vec::new();
    let mut i: usize = 0;
    assert(all.take(0) =~= Seq::<nat>::empty());
    while i < items.len()
        invariant
            0 <= i <= items@.len(),
            items@.len() == all.len(),
            html.len() <= MAX_PAGE_LEN,
            inner == selection_nodes(*nested),
            forall|k: int|
                0 <= k < items@.len() ==> selection_page(#[trigger] items@[k]) == html
                    && selection_nodes(items@[k]) == seq![all[k]],
            kept == outside(all.take(i as int), inner),
            out@.len() == kept.len(),
            forall|k: int|
                0 <= k < kept.len() ==> (#[trigger] out@[k])@ == text_of(html, seq![kept[k]]),
        decreases items@.len() - i,
    {
        let item = &items[i];
        let is_nested = shares_node(item, nested);
        proof {
            let one = selection_nodes(*item);
            assert(one[0] == all[i as int]);
            assert(is_nested == inner.contains(all[i as int]));
            assert(all.take(i + 1).drop_last() =~= all.take(i as int));
            assert(all.take(i + 1).last() == all[i as int]);
        }
        if !is_nested {
            let t = text_in(item);
            out.push(t);
            proof {
                kept = kept.push(all[i as int]);
            }
        }
        i = i + 1;
    }
    assert(all.take(i as int) =~= all);
    assert(texts(out@) =~= node_texts(html, kept));
    out
}

/// Reads the sense block at the one node of `block`.
fn read_sense(block: &nipper::Selection<'_>, Ghost(html): Ghost<Seq<char>>) -> (r: SenseBlock)
    requires
        selection_nodes(*block).len() == 1,
        selection_page(*block) == html,
        html.len() <= MAX_PAGE_LEN,
    ensures
        r@ == sense_block_at(html, selection_nodes(*block)[0]),
{
    let ghost node = selection_nodes(*block)[0];
    assert(selection_nodes(*block) =~= seq![node]);
    let definition = text_in_a_row(&select_under(block, ".DEF"), Ghost(html));
    let signpost = text_in_a_row(&select_under(block, ".SIGNPOST"), Ghost(html));
    let phrase_sel = select_under(block, ".GramExa, .ColloExa");
    let nested = select_under(&phrase_sel, ".EXAMPLE");
    let found = select_under(block, ".EXAMPLE");
    let examples = texts_outside(&found, &nested, Ghost(html));
    let items = each_node(&phrase_sel);
    let ghost phrase_nodes = selection_nodes(phrase_sel);
    let mut phrase_blocks: Vec<PhraseBlock> = Vec::new();
    let mut i: usize = 0;
    while i < items.len()
        invariant
            0 <= i <= items@.len(),
            items@.len() == phrase_nodes.len(),
            html.len() <= MAX_PAGE_LEN,
            forall|k: int|
                0 <= k < items@.len() ==> selection_page(#[trigger] items@[k]) == html
                    && selection_nodes(items@[k]) == seq![phrase_nodes[k]],
            phrase_blocks@.len() == i,
            forall|k: int|
                0 <= k < i ==> (#[trigger] phrase_blocks@[k])@ == phrase_block_at(
                    html,
                    phrase_nodes[k],
                ),
        decreases items@.len() - i,
    {
        let b = read_phrase(&items[i], Ghost(html));
        phrase_blocks.push(b);
        i = i + 1;
    }
    let r = SenseBlock { definition, signpost, examples, phrase_blocks };
    assert(r@.phrase_blocks =~= sense_block_at(html, node).phrase_blocks);
    r
}

/// Reads the entry block at the one node of `block`.
fn read_entry(block: &nipper::Selection<'_>, Ghost(html): Ghost<Seq<char>>) -> (r: EntryBlock)
    requires
        selection_nodes(*block).len() == 1,
        selection_page(*block) == html,
        html.len() <= MAX_PAGE_LEN,
    ensures
        r@ == entry_block_at(html, selection_nodes(*block)[0]),
{
    let ghost node = selection_nodes(*block)[0];
    assert(selection_nodes(*block) =~= seq![node]);
    let pronunciation = first_text(&select_under(block, ".PronCodes"), Ghost(html));
    let label = first_text(&select_under(block, ".POS"), Ghost(html));
    let sense_sel = select_under(block, ".Sense");
    let items = each_node(&sense_sel);
    let ghost sense_nodes = selection_nodes(sense_sel);
    let mut senses: Vec<SenseBlock> = Vec::new();
    let mut i: usize = 0;
    while i < items.len()
        invariant
            0 <= i <= items@.len(),
            items@.len() == sense_nodes.len(),
            html.len() <= MAX_PAGE_LEN,
            forall|k: int|
                0 <= k < items@.len() ==> selection_page(#[trigger] items@[k]) == html
                    && selection_nodes(items@[k]) == seq![sense_nodes[k]],
            senses@.len() == i,
            forall|k: int|
                0 <= k < i ==> (#[trigger] senses@[k])@ == sense_block_at(html, sense_nodes[k]),
        decreases items@.len() - i,
    {
        let b = read_sense(&items[i], Ghost(html));
        senses.push(b);
        i = i + 1;
    }
    let r = EntryBlock { pronunciation, label, senses };
    assert(r@.senses =~= entry_block_at(html, node).senses);
    r
}

/// Parses the page and reads its entry blocks, in document order. A page
/// without a dictionary container, or without entry blocks in it, gives
/// none. The page is no longer than `MAX_PAGE_LEN` characters.
pub fn read_blocks(html: &str) -> (r: Vec<EntryBlock>)
    requires
        html@.len() <= MAX_PAGE_LEN,
    ensures
        block_models(r@) == page_blocks(html@),
{
    let page = open_page(html);
    let container = first_node(&select_in_page(&page, "div.dictionary"));
    let entry_sel = select_under(&container, ".dictentry");
    let items = each_node(&entry_sel);
    let ghost entry_nodes = selection_nodes(entry_sel);
    let mut blocks: Vec<EntryBlock> = Vec::new();
    let mut i: usize = 0;
    while i < items.len()
        invariant
            0 <= i <= items@.len(),
            items@.len() == entry_nodes.len(),
            html@.len() <= MAX_PAGE_LEN,
            forall|k: int|
                0 <= k < items@.len() ==> selection_page(#[trigger] items@[k]) == html@
                    && selection_nodes(items@[k]) == seq![entry_nodes[k]],
            blocks@.len() == i,
            forall|k: int|
                0 <= k < i ==> (#[trigger] blocks@[k])@ == entry_block_at(html@, entry_nodes[k]),
        decreases items@.len() - i,
    {
        let b = read_entry(&items[i], Ghost(html@));
        blocks.push(b);
        i = i + 1;
    }
    assert(block_models(blocks@) =~= page_blocks(html@));
    blocks
}

} // verus!

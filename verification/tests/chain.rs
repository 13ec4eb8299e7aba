use iron::Alloy;
use iron::ChainBuilder;
use iron::Middleware;
use iron::Signal;

/// A handler that records its place in the invocation order under its own
/// key, using key 0 of the alloy as the shared counter, then returns its
/// fixed signal.
struct NoteHandler {
    key: u64,
    signal: Signal,
}

impl Middleware for NoteHandler {
    type Req = ();
    type Res = ();

    fn handle(&self, _req: &mut (), _res: &mut (), alloy: &mut Alloy) -> Signal {
        let order = alloy.find(0).unwrap_or(0);
        alloy.insert(0, order + 1);
        alloy.insert(self.key, order);
        self.signal
    }
}

#[test]
fn chain_unwind_short_circuits() {
    let mut builder = ChainBuilder::new();
    builder.link(NoteHandler { key: 1, signal: Signal::Continue });
    builder.link(NoteHandler { key: 2, signal: Signal::Unwind });
    builder.link(NoteHandler { key: 3, signal: Signal::Continue });
    builder.link_outer(NoteHandler { key: 4, signal: Signal::Continue });
    let chain = builder.build();
    let mut alloy = Alloy::new();
    let (entered, finalized) = chain.dispatch(&mut (), &mut (), &mut alloy);
    assert_eq!(entered, vec![Signal::Continue, Signal::Unwind]);
    assert_eq!(finalized, vec![Signal::Continue]);
    assert_eq!(alloy.find(1), Some(0));
    assert_eq!(alloy.find(2), Some(1));
    assert_eq!(alloy.find(3), None);
    assert_eq!(alloy.find(4), Some(2));
}

#[test]
fn chain_all_continue_then_finalizer() {
    let mut builder = ChainBuilder::new();
    builder.link(NoteHandler { key: 1, signal: Signal::Continue });
    builder.link(NoteHandler { key: 2, signal: Signal::Continue });
    builder.link_outer(NoteHandler { key: 3, signal: Signal::Continue });
    let chain = builder.build();
    let mut alloy = Alloy::new();
    let (entered, finalized) = chain.dispatch(&mut (), &mut (), &mut alloy);
    assert_eq!(entered, vec![Signal::Continue, Signal::Continue]);
    assert_eq!(finalized, vec![Signal::Continue]);
    assert_eq!(alloy.find(1), Some(0));
    assert_eq!(alloy.find(2), Some(1));
    assert_eq!(alloy.find(3), Some(2));
}

#[test]
fn chain_unwind_on_last_link() {
    let mut builder = ChainBuilder::new();
    builder.link(NoteHandler { key: 1, signal: Signal::Continue });
    builder.link(NoteHandler { key: 2, signal: Signal::Unwind });
    builder.link_outer(NoteHandler { key: 3, signal: Signal::Continue });
    let chain = builder.build();
    let mut alloy = Alloy::new();
    let (entered, finalized) = chain.dispatch(&mut (), &mut (), &mut alloy);
    assert_eq!(entered, vec![Signal::Continue, Signal::Unwind]);
    assert_eq!(finalized.len(), 1);
    assert_eq!(alloy.find(3), Some(2));
}

#[test]
fn chain_empty_still_finalizes() {
    let mut builder = ChainBuilder::new();
    builder.link_outer(NoteHandler { key: 7, signal: Signal::Continue });
    let chain = builder.build();
    let mut alloy = Alloy::new();
    let (entered, finalized) = chain.dispatch(&mut (), &mut (), &mut alloy);
    assert!(entered.is_empty());
    assert_eq!(finalized, vec![Signal::Continue]);
    assert_eq!(alloy.find(7), Some(0));
}

#[test]
fn alloy_insert_find() {
    let mut alloy = Alloy::new();
    assert_eq!(alloy.find(1), None);
    alloy.insert(1, 10);
    alloy.insert(2, 20);
    assert_eq!(alloy.find(1), Some(10));
    assert_eq!(alloy.find(2), Some(20));
    alloy.insert(1, 30);
    assert_eq!(alloy.find(1), Some(30));
    assert_eq!(alloy.find(3), None);
}

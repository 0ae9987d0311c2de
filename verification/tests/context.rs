use nexus::pipeline::context::PipelineContext;
use nexus::test_helpers::fake_context::FakeContext;
use nexus::traits::Context;

#[test]
fn test_write() {
    let mut ctx = PipelineContext::new();
    let write = 9u8;
    let res = ctx.write(write);
    assert!(res.is_ok());

    let res = ctx.write(write);
    assert!(res.is_err());
    let err = res.unwrap_err();
    assert_eq!(err, 9u8);

    let to_write = ctx.into();
    assert!(to_write.is_some());
}

#[test]
fn second_write_comes_back_and_first_stays() {
    let mut ctx = PipelineContext::new();
    assert!(ctx.write(vec![1u8, 2]).is_ok());
    let back = ctx.write(vec![3u8, 4]).unwrap_err();
    assert_eq!(back, vec![3, 4]);
    let back = ctx.write(vec![5u8]).unwrap_err();
    assert_eq!(back, vec![5]);
    let (object, _promise) = ctx.into().unwrap();
    assert_eq!(object, vec![1, 2]);
}

#[test]
fn fresh_context_holds_nothing() {
    let ctx = PipelineContext::<u8>::new();
    assert!(!ctx.close_requested());
    assert!(ctx.into().is_none());
}

#[test]
fn close_is_remembered() {
    let mut ctx = PipelineContext::<u8>::new();
    ctx.close();
    assert!(ctx.close_requested());
    assert!(ctx.write(1).is_ok());
    assert!(ctx.close_requested());
}

#[test]
fn written_future_waits_for_the_promise() {
    let mut ctx = PipelineContext::new();
    let future = ctx.write(1u8).unwrap();
    assert!(!future.is_done());
    let (_, promise) = ctx.into().unwrap();
    promise.set(Ok(()));
    assert!(future.is_done());
    assert!(future.get().is_ok());
}

#[test]
fn fake_context_takes_one_write() {
    let mut ctx = FakeContext::new();
    assert!(ctx.write(()).is_ok());
    assert!(ctx.write(()).is_err());
    ctx.close();
}

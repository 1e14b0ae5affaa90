use cartridge_engine::buffers::{BufferClass, BufferPool, PooledBuffer};

#[test]
fn test_buffer_pool_basic_usage() {
    let mut pool = BufferPool::new();

    let mut buf = pool.get_state_buffer();
    buf.extend_from_slice(b"test data");
    assert_eq!(buf.len(), 9);

    pool.return_state_buffer(buf);

    let buf2 = pool.get_state_buffer();
    assert_eq!(buf2.len(), 0);
    assert!(buf2.capacity() >= 9);
}

#[test]
fn test_buffer_pool_with_capacity() {
    let mut pool = BufferPool::with_capacity(5, 3, 2, 128);
    let stats = pool.stats();

    assert_eq!(stats.available_state_buffers, 5);
    assert_eq!(stats.available_obs_buffers, 3);
    assert_eq!(stats.available_action_buffers, 2);

    let buf = pool.get_state_buffer();
    assert!(buf.capacity() >= 128);
}

#[test]
fn test_multiple_buffer_types() {
    let mut pool = BufferPool::new();

    let state_buf = pool.get_state_buffer();
    let obs_buf = pool.get_obs_buffer();
    let action_buf = pool.get_action_buffer();

    pool.return_state_buffer(state_buf);
    pool.return_obs_buffer(obs_buf);
    pool.return_action_buffer(action_buf);

    let stats = pool.stats();
    assert_eq!(stats.available_state_buffers, 1);
    assert_eq!(stats.available_obs_buffers, 1);
    assert_eq!(stats.available_action_buffers, 1);
}

#[test]
fn test_buffer_pool_stats() {
    let mut pool = BufferPool::new();
    let initial_stats = pool.stats();

    assert_eq!(initial_stats.available_state_buffers, 0);
    assert_eq!(initial_stats.available_obs_buffers, 0);
    assert_eq!(initial_stats.available_action_buffers, 0);

    pool.return_state_buffer(Vec::new());
    pool.return_state_buffer(Vec::new());
    pool.return_obs_buffer(Vec::new());

    let stats = pool.stats();
    assert_eq!(stats.available_state_buffers, 2);
    assert_eq!(stats.available_obs_buffers, 1);
    assert_eq!(stats.available_action_buffers, 0);
}

#[test]
fn test_buffer_pool_clear() {
    let mut pool = BufferPool::new();

    pool.return_state_buffer(Vec::new());
    pool.return_obs_buffer(Vec::new());
    pool.return_action_buffer(Vec::new());

    let stats_before = pool.stats();
    assert_eq!(stats_before.available_state_buffers, 1);

    pool.clear();

    let stats_after = pool.stats();
    assert_eq!(stats_after.available_state_buffers, 0);
    assert_eq!(stats_after.available_obs_buffers, 0);
    assert_eq!(stats_after.available_action_buffers, 0);
}

#[test]
fn test_pooled_buffer_raii() {
    let mut pool = BufferPool::new();
    let initial_stats = pool.stats();
    assert_eq!(initial_stats.available_state_buffers, 0);

    {
        let buffer = pool.get_state_buffer();
        let pooled = PooledBuffer::new(buffer, BufferClass::State);

        let stats = pool.stats();
        assert_eq!(stats.available_state_buffers, 0);

        pooled.release(&mut pool);
    }

    let final_stats = pool.stats();
    assert_eq!(final_stats.available_state_buffers, 1);
}

#[test]
fn test_pooled_buffer_into_inner() {
    let mut pool = BufferPool::new();

    let buffer = pool.get_state_buffer();
    let mut pooled = PooledBuffer::new(buffer, BufferClass::State);

    pooled.as_mut().extend_from_slice(b"test");
    let inner = pooled.into_inner();

    assert_eq!(inner, b"test");

    let stats = pool.stats();
    assert_eq!(stats.available_state_buffers, 0);
}

#[test]
fn test_pooled_buffer_deref() {
    let mut pool = BufferPool::new();
    let buffer = pool.get_state_buffer();
    let mut pooled = PooledBuffer::new(buffer, BufferClass::State);

    pooled.as_mut().extend_from_slice(b"hello");

    assert_eq!(pooled.as_ref().len(), 5);
    assert_eq!(&pooled.as_ref()[..], b"hello");
}

#[test]
fn released_buffer_comes_back_empty_with_capacity() {
    let mut pool = BufferPool::new();
    let mut buf = pool.acquire(BufferClass::Obs);
    buf.extend_from_slice(&[1, 2, 3, 4, 5, 6, 7, 8]);
    let pooled = PooledBuffer::new(buf, BufferClass::Obs);
    pooled.release(&mut pool);
    let stats = pool.stats();
    assert_eq!(stats.available_obs_buffers, 1);
    assert_eq!(stats.available_state_buffers, 0);
    let again = pool.get_obs_buffer();
    assert!(again.is_empty());
    assert!(again.capacity() >= 8);
}

#[test]
fn acquire_from_empty_stack_allocates() {
    let mut pool = BufferPool::new();
    let buf = pool.get_action_buffer();
    assert!(buf.is_empty());
    assert_eq!(pool.stats().available_action_buffers, 0);
    pool.return_action_buffer(buf);
    assert_eq!(pool.stats().available_action_buffers, 1);
}

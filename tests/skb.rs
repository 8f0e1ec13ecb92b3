use aic8800_sdio::skb::SkBuff;

#[test]
fn skb_put_pull() {
    let mut skb = SkBuff::alloc_with_headroom(64, 4);
    assert_eq!(skb.headroom(), 4);
    assert_eq!(skb.len(), 0);
    let p = skb.put(8).unwrap();
    skb.write(p, &[1, 2, 3, 4, 5, 6, 7, 8]);
    assert_eq!(skb.len(), 8);
    assert_eq!(skb.data(), &[1, 2, 3, 4, 5, 6, 7, 8]);
    skb.pull(2);
    assert_eq!(skb.data(), &[3, 4, 5, 6, 7, 8]);
    assert_eq!(skb.len(), 6);
}

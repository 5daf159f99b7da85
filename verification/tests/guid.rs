use eventheader::guid::Guid;
use eventheader::sha1::Sha1NonSecret;
use uuid::Uuid;

fn hex(bytes: &[u8]) -> String {
    let mut text = String::new();
    for b in bytes {
        text.push_str(&format!("{:02x}", b));
    }
    text
}

fn sha1_of(data: &[u8]) -> String {
    let mut hasher = Sha1NonSecret::new();
    hasher.write(data);
    hex(&hasher.finish())
}

#[test]
fn guid() {
    let nil = Guid::from_u128(&0);
    let myprovider = Guid::from_u128(&0xb3864c38_4273_58c5_545b_8b3608343471);
    let a3a2a1a0 = Guid::from_u128(&0xa3a2a1a0_b1b0_c1c0_d7d6_d5d4d3d2d1d0);

    assert_eq!(Guid::default(), nil);

    assert_eq!(Guid::from_name("myprovider"), myprovider);
    assert_eq!(Guid::from_name("MYPROVIDER"), myprovider);
    assert_eq!(
        Guid::from_fields(
            0xa3a2a1a0,
            0xb1b0,
            0xc1c0,
            [0xd7, 0xd6, 0xd5, 0xd4, 0xd3, 0xd2, 0xd1, 0xd0]
        ),
        a3a2a1a0
    );
    assert_eq!(
        Guid::from_bytes_be(&[
            0xa3, 0xa2, 0xa1, 0xa0, 0xb1, 0xb0, 0xc1, 0xc0, 0xd7, 0xd6, 0xd5, 0xd4, 0xd3, 0xd2,
            0xd1, 0xd0
        ]),
        a3a2a1a0
    );
    assert_eq!(
        Guid::from_bytes_le(&[
            0xa0, 0xa1, 0xa2, 0xa3, 0xb0, 0xb1, 0xc0, 0xc1, 0xd7, 0xd6, 0xd5, 0xd4, 0xd3, 0xd2,
            0xd1, 0xd0
        ]),
        a3a2a1a0
    );
    assert_eq!(
        Guid::from_u128(&0xa3a2a1a0_b1b0_c1c0_d7d6d5d4d3d2d1d0),
        a3a2a1a0
    );
    assert_eq!(
        a3a2a1a0.to_fields(),
        (
            0xa3a2a1a0,
            0xb1b0,
            0xc1c0,
            [0xd7, 0xd6, 0xd5, 0xd4, 0xd3, 0xd2, 0xd1, 0xd0]
        )
    );
    assert_eq!(
        a3a2a1a0.to_bytes_be(),
        [
            0xa3, 0xa2, 0xa1, 0xa0, 0xb1, 0xb0, 0xc1, 0xc0, 0xd7, 0xd6, 0xd5, 0xd4, 0xd3, 0xd2,
            0xd1, 0xd0
        ]
    );
    assert_eq!(
        a3a2a1a0.to_bytes_le(),
        [
            0xa0, 0xa1, 0xa2, 0xa3, 0xb0, 0xb1, 0xc0, 0xc1, 0xd7, 0xd6, 0xd5, 0xd4, 0xd3, 0xd2,
            0xd1, 0xd0
        ]
    );
    assert_eq!(a3a2a1a0.to_u128(), 0xa3a2a1a0_b1b0_c1c0_d7d6d5d4d3d2d1d0);
    assert_eq!(
        a3a2a1a0.to_utf8_bytes(),
        *b"a3a2a1a0-b1b0-c1c0-d7d6-d5d4d3d2d1d0"
    );
    assert_eq!(a3a2a1a0.to_text(), "a3a2a1a0-b1b0-c1c0-d7d6-d5d4d3d2d1d0");

    let g = a3a2a1a0;
    let gf = g.to_fields();
    let g_lowercase = g.to_utf8_bytes();

    // A Guid and a uuid::Uuid agree on every form.
    {
        let v = Uuid::from_u128(g.to_u128());
        let vf = v.as_fields();
        assert_eq!(
            format!("{:?}", v).to_ascii_lowercase().as_bytes(),
            &g_lowercase
        );

        assert_eq!(*v.as_bytes(), g.to_bytes_be());
        assert_eq!(v.to_bytes_le(), g.to_bytes_le());
        assert_eq!(v.as_fields(), (gf.0, gf.1, gf.2, &gf.3));
        assert_eq!(v.as_u128(), g.to_u128());

        assert_eq!(v, Uuid::from_bytes(g.to_bytes_be()));
        assert_eq!(v, Uuid::from_bytes_le(g.to_bytes_le()));
        assert_eq!(v, Uuid::from_fields(gf.0, gf.1, gf.2, &gf.3));
        assert_eq!(v, Uuid::from_u128(g.to_u128()));

        assert_eq!(g, Guid::from_bytes_be(v.as_bytes()));
        assert_eq!(g, Guid::from_bytes_le(&v.to_bytes_le()));
        assert_eq!(g, Guid::from_fields(vf.0, vf.1, vf.2, *vf.3));
        assert_eq!(g, Guid::from_u128(&v.as_u128()));
    }
}

#[test]
fn guid_zero_is_all_zero() {
    assert_eq!(Guid::zero().to_bytes_be(), [0u8; 16]);
    assert_eq!(Guid::zero().to_u128(), 0);
    assert_eq!(*Guid::zero().as_bytes_raw(), [0u8; 16]);
}

#[test]
fn guid_from_name_golden_value() {
    assert_eq!(
        Guid::from_name("MyProvider"),
        Guid::from_u128(&0xb3864c38_4273_58c5_545b_8b3608343471)
    );
    assert_eq!(
        Guid::from_name("myprovider").to_text(),
        "b3864c38-4273-58c5-545b-8b3608343471"
    );
}

#[test]
fn guid_from_name_ignores_ascii_case() {
    for name in ["x", "Test_Provider", "abcXYZ019_", "MyCompany_MyComponent"] {
        let upper = name.to_ascii_uppercase();
        let lower = name.to_ascii_lowercase();
        assert_eq!(Guid::from_name(&upper), Guid::from_name(&lower));
        assert_eq!(Guid::from_name(name), Guid::from_name(&lower));
    }
    assert_ne!(Guid::from_name("a"), Guid::from_name("b"));
}

#[test]
fn guid_from_name_upper_cases_beyond_ascii() {
    // The sharp s has a two-letter upper case; the name is hashed in upper case.
    assert_eq!(Guid::from_name("stra\u{df}e"), Guid::from_name("STRASSE"));
    assert_eq!(Guid::from_name("\u{e9}t\u{e9}"), Guid::from_name("\u{c9}T\u{c9}"));
    assert_ne!(Guid::from_name("\u{e9}"), Guid::from_name("e"));
}

#[test]
fn guid_from_name_is_the_patched_hash_of_the_utf16_name() {
    // Namespace, then "AB" as big-endian UTF-16, then a character beyond the
    // basic plane as a surrogate pair.
    let mut data: Vec<u8> = vec![
        0x48, 0x2C, 0x2D, 0xB2, 0xC3, 0x90, 0x47, 0xC8, 0x87, 0xF8, 0x1A, 0x15, 0xBF, 0xC1, 0x30,
        0xFB,
    ];
    data.extend_from_slice(&[0x00, 0x41, 0x00, 0x42, 0xD8, 0x3D, 0xDE, 0x00]);
    let mut hasher = Sha1NonSecret::new();
    hasher.write(&data);
    let digest = hasher.finish();
    let mut v = [0u8; 16];
    v.copy_from_slice(&digest[0..16]);
    v[7] = (v[7] & 0x0F) | 0x50;
    assert_eq!(Guid::from_name("ab\u{1F600}"), Guid::from_bytes_le(&v));
    assert_eq!(Guid::from_name("ab\u{1F600}").to_bytes_le()[7] & 0xF0, 0x50);
}

#[test]
fn guid_parse_accepts_all_four_forms() {
    let g = Guid::from_u128(&0xa3a2a1a0_b1b0_c1c0_d7d6_d5d4d3d2d1d0);
    assert_eq!(Guid::try_parse("{a3a2a1a0-b1b0-c1c0-d7d6-d5d4d3d2d1d0}"), Some(g));
    assert_eq!(Guid::try_parse("a3a2a1a0-b1b0-c1c0-d7d6-d5d4d3d2d1d0"), Some(g));
    assert_eq!(Guid::try_parse("a3a2a1a0b1b0c1c0d7d6d5d4d3d2d1d0"), Some(g));
    assert_eq!(Guid::try_parse("{a3a2a1a0b1b0c1c0d7d6d5d4d3d2d1d0}"), Some(g));
    assert_eq!(Guid::try_parse("A3A2A1A0-B1B0-C1C0-D7D6-D5D4D3D2D1D0"), Some(g));
    assert_eq!(
        Guid::try_parse_ascii(b"{a3a2a1a0-b1b0-c1c0-d7d6-d5d4d3d2d1d0}"),
        Some(g)
    );
    assert_eq!(Guid::try_parse_ascii(b"a3a2a1a0b1b0c1c0d7d6d5d4d3d2d1d0"), Some(g));
}

#[test]
fn guid_parse_rejects_what_is_no_guid() {
    assert_eq!(Guid::try_parse(""), None);
    assert_eq!(Guid::try_parse("a3a2a1a0"), None);
    // 31 digits
    assert_eq!(Guid::try_parse("a3a2a1a0b1b0c1c0d7d6d5d4d3d2d1d"), None);
    // 33 digits
    assert_eq!(Guid::try_parse("a3a2a1a0b1b0c1c0d7d6d5d4d3d2d1d00"), None);
    // a letter that is no hex digit, first and last
    assert_eq!(Guid::try_parse("g3a2a1a0b1b0c1c0d7d6d5d4d3d2d1d0"), None);
    assert_eq!(Guid::try_parse("a3a2a1a0b1b0c1c0d7d6d5d4d3d2d1dg"), None);
    assert_eq!(Guid::try_parse("a3a2a1a0-b1b0-c1c0-d7d6-d5d4d3d2d1dz"), None);
    // a dash in the wrong place
    assert_eq!(Guid::try_parse("a3a2a1a-0b1b0-c1c0-d7d6-d5d4d3d2d1d0"), None);
    // one brace only
    assert_eq!(Guid::try_parse("{a3a2a1a0-b1b0-c1c0-d7d6-d5d4d3d2d1d0"), None);
    assert_eq!(Guid::try_parse("a3a2a1a0-b1b0-c1c0-d7d6-d5d4d3d2d1d0}"), None);
    // bytes just outside the digit ranges
    assert_eq!(Guid::try_parse("/3a2a1a0b1b0c1c0d7d6d5d4d3d2d1d0"), None);
    assert_eq!(Guid::try_parse(":3a2a1a0b1b0c1c0d7d6d5d4d3d2d1d0"), None);
    assert_eq!(Guid::try_parse("`3a2a1a0b1b0c1c0d7d6d5d4d3d2d1d0"), None);
    assert_eq!(Guid::try_parse("@3a2a1a0b1b0c1c0d7d6d5d4d3d2d1d0"), None);
    assert_eq!(Guid::try_parse("G3a2a1a0b1b0c1c0d7d6d5d4d3d2d1d0"), None);
}

#[test]
fn guid_round_trips() {
    let values: [u128; 4] = [
        0,
        u128::MAX,
        0x0123456789abcdef_fedcba9876543210,
        0xb3864c38_4273_58c5_545b_8b3608343471,
    ];
    for value in values {
        let g = Guid::from_u128(&value);
        assert_eq!(g.to_u128(), value);
        assert_eq!(Guid::from_bytes_be(&g.to_bytes_be()), g);
        assert_eq!(Guid::from_bytes_le(&g.to_bytes_le()), g);
        let f = g.to_fields();
        assert_eq!(Guid::from_fields(f.0, f.1, f.2, f.3), g);
        let text = g.to_utf8_bytes();
        assert_eq!(Guid::try_parse_ascii(&text), Some(g));
        let mut braced = vec![b'{'];
        braced.extend_from_slice(&text);
        braced.push(b'}');
        assert_eq!(Guid::try_parse_ascii(&braced), Some(g));
        let plain: Vec<u8> = text.iter().copied().filter(|b| *b != b'-').collect();
        assert_eq!(plain.len(), 32);
        assert_eq!(Guid::try_parse_ascii(&plain), Some(g));
        assert_eq!(Guid::try_parse(&g.to_text()), Some(g));
    }
}

#[test]
fn sha1_known_digests() {
    assert_eq!(sha1_of(b""), "da39a3ee5e6b4b0d3255bfef95601890afd80709");
    assert_eq!(sha1_of(b"abc"), "a9993e364706816aba3e25717850c26c9cd0d89d");
    assert_eq!(
        sha1_of(b"abcdbcdecdefdefgefghfghighijhijkijkljklmklmnlmnomnopnopq"),
        "84983e441c3bd26ebaae4aa1f95129e5e54670f1"
    );
    assert_eq!(
        sha1_of(b"The quick brown fox jumps over the lazy dog"),
        "2fd4e1c67a2d28fced849ee1bb76e7391b93eb12"
    );
}

#[test]
fn sha1_block_boundaries() {
    // 55 bytes leave room for the padding in one block, 56 do not, 64 fill one.
    assert_eq!(sha1_of(&[b'a'; 55]), "c1c8bbdc22796e28c0e15163d20899b65621d65a");
    assert_eq!(sha1_of(&[b'a'; 56]), "c2db330f6083854c99d4b5bfb6e8f29f201be699");
    assert_eq!(sha1_of(&[b'a'; 64]), "0098ba824b5c16427bd7a1122a5a442a25ec644d");
}

#[test]
fn sha1_byte_by_byte_is_the_same_as_at_once() {
    let data = b"abcdbcdecdefdefgefghfghighijhijkijkljklmklmnlmnomnopnopq";
    let mut one = Sha1NonSecret::new();
    for b in data.iter() {
        one.write_u8(*b);
    }
    let mut all = Sha1NonSecret::new();
    all.write(data);
    assert_eq!(one.finish(), all.finish());
}

#[test]
fn sha1_of_a_million_bytes() {
    let data = vec![b'a'; 1_000_000];
    assert_eq!(sha1_of(&data), "34aa973cd4c4daa4f61eeb2bdbad27316534016f");
}

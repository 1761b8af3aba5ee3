use liquidity_deployment_tool::cli::{parse_pool, split_commas, PairType, PoolInfo, PoolType};

fn pool(pool_type: PoolType) -> PoolInfo {
    PoolInfo {
        address: "neutron1pool".to_string(),
        amount_a: 1000,
        amount_b: 250,
        denom_a: "untrn".to_string(),
        denom_b: "ibc/ABC".to_string(),
        pool_type,
    }
}

#[test]
fn a_pool_description_of_each_kind() {
    assert_eq!(
        parse_pool("neutron1pool,1000,250,untrn,ibc/ABC,xyk_cw20"),
        Ok(pool(PoolType::Cw20LpToken(PairType::Xyk)))
    );
    assert_eq!(
        parse_pool("neutron1pool,1000,250,untrn,ibc/ABC,stable_cw20"),
        Ok(pool(PoolType::Cw20LpToken(PairType::Stable)))
    );
    assert_eq!(
        parse_pool("neutron1pool,1000,250,untrn,ibc/ABC,custom_cw20"),
        Ok(pool(PoolType::Cw20LpToken(PairType::Custom("custom_cw20".to_string()))))
    );
    assert_eq!(
        parse_pool("neutron1pool,1000,250,untrn,ibc/ABC,xyk_native"),
        Ok(pool(PoolType::NativeLpToken(PairType::Xyk)))
    );
    assert_eq!(
        parse_pool("neutron1pool,1000,250,untrn,ibc/ABC,stable_native"),
        Ok(pool(PoolType::NativeLpToken(PairType::Stable)))
    );
    assert_eq!(
        parse_pool("neutron1pool,1000,250,untrn,ibc/ABC,custom_native"),
        Ok(pool(PoolType::NativeLpToken(PairType::Custom("custom_native".to_string()))))
    );
}

#[test]
fn amounts_up_to_128_bits() {
    let parsed =
        parse_pool(",340282366920938463463374607431768211455,+007,,,xyk_native").unwrap();
    assert_eq!(parsed.address, "");
    assert_eq!(parsed.amount_a, u128::MAX);
    assert_eq!(parsed.amount_b, 7);
    assert_eq!(parsed.denom_a, "");
    assert_eq!(parsed.denom_b, "");
    assert_eq!(parse_pool("a,0,0,b,c,xyk_cw20").unwrap().amount_a, 0);
}

#[test]
fn a_description_must_hold_six_fields() {
    let why = "Invalid format. Expected: address,amount_a,amount_b,denom_a,denom_b,pool_type";
    assert_eq!(parse_pool(""), Err(why.to_string()));
    assert_eq!(parse_pool("a,1,2,b,c"), Err(why.to_string()));
    assert_eq!(parse_pool("a,1,2,b,c,xyk_cw20,"), Err(why.to_string()));
    assert_eq!(parse_pool("a,x,y,b,c,d,e"), Err(why.to_string()));
}

#[test]
fn the_kind_of_pool_is_checked_before_the_amounts() {
    assert_eq!(parse_pool("a,x,y,b,c,xyk"), Err("Invalid pool_type format".to_string()));
    assert_eq!(parse_pool("a,1,2,b,c,"), Err("Invalid pool_type format".to_string()));
    assert_eq!(parse_pool("a,1,2,b,c,XYK_CW20"), Err("Invalid pool_type format".to_string()));
    assert_eq!(parse_pool("a,1,2,b,c, xyk_cw20"), Err("Invalid pool_type format".to_string()));
}

#[test]
fn the_first_amount_is_checked_before_the_second() {
    assert_eq!(parse_pool("a,x,y,b,c,xyk_cw20"), Err("Invalid amount_a format".to_string()));
    assert_eq!(parse_pool("a,,2,b,c,xyk_cw20"), Err("Invalid amount_a format".to_string()));
    assert_eq!(parse_pool("a,-1,2,b,c,xyk_cw20"), Err("Invalid amount_a format".to_string()));
    assert_eq!(parse_pool("a,+,2,b,c,xyk_cw20"), Err("Invalid amount_a format".to_string()));
    assert_eq!(parse_pool("a, 1,2,b,c,xyk_cw20"), Err("Invalid amount_a format".to_string()));
    assert_eq!(parse_pool("a,1.0,2,b,c,xyk_cw20"), Err("Invalid amount_a format".to_string()));
    assert_eq!(
        parse_pool("a,340282366920938463463374607431768211456,2,b,c,xyk_cw20"),
        Err("Invalid amount_a format".to_string())
    );
    assert_eq!(parse_pool("a,1,y,b,c,xyk_cw20"), Err("Invalid amount_b format".to_string()));
    assert_eq!(parse_pool("a,1,2 ,b,c,xyk_cw20"), Err("Invalid amount_b format".to_string()));
    assert_eq!(parse_pool("a,1,++2,b,c,xyk_cw20"), Err("Invalid amount_b format".to_string()));
}

#[test]
fn commas_part_fields() {
    assert_eq!(split_commas(""), vec![""]);
    assert_eq!(split_commas("a"), vec!["a"]);
    assert_eq!(split_commas(","), vec!["", ""]);
    assert_eq!(split_commas("a,b"), vec!["a", "b"]);
    assert_eq!(split_commas(",a,,b,"), vec!["", "a", "", "b", ""]);
    assert_eq!(split_commas("é,ü;x, y"), vec!["é", "ü;x", " y"]);
}
